//! The command line of the service client: what a line that the operator
//! typed asks for.

use vstd::prelude::*;
use crate::dispenser::DispenserAddress;

verus! {

/// What a line of the operator asks for.
#[derive(Clone, Copy, Debug, PartialEq, Eq, Structural)]
pub enum ClientCommand {
    /// Vend the item at the address, with checks and payment.
    Vend(DispenserAddress),
    /// Dispense the item at the address without checks or payment.
    Force(DispenserAddress),
    /// Report the status of the dispenser at the address.
    Status(DispenserAddress),
    /// Report the status of every dispenser that answers.
    MapAll,
    /// The address is not two characters.
    BadAddress,
    /// The command lacks its address, or has more than one word after it.
    NoAddress,
    /// Nothing that the client knows.
    Unknown,
}

/// The word `VEND`.
pub open spec fn word_vend() -> Seq<u8> {
    seq![0x56u8, 0x45, 0x4E, 0x44]
}

/// The word `FORCE`.
pub open spec fn word_force() -> Seq<u8> {
    seq![0x46u8, 0x4F, 0x52, 0x43, 0x45]
}

/// The word `STATUS`.
pub open spec fn word_status() -> Seq<u8> {
    seq![0x53u8, 0x54, 0x41, 0x54, 0x55, 0x53]
}

/// The word `MAP`.
pub open spec fn word_map() -> Seq<u8> {
    seq![0x4Du8, 0x41, 0x50]
}

/// The words of a line as sequences of bytes.
pub open spec fn words(parts: Seq<Vec<u8>>) -> Seq<Seq<u8>> {
    Seq::new(parts.len(), |i: int| parts[i]@)
}

/// The address that the one word after a command spells, or what is
/// wrong with the line.
pub open spec fn address_of(line: Seq<Seq<u8>>) -> Result<DispenserAddress, ClientCommand> {
    if line.len() != 2 {
        Err(ClientCommand::NoAddress)
    } else if line[1].len() != 2 {
        Err(ClientCommand::BadAddress)
    } else {
        Ok(DispenserAddress { row: line[1][0] as char, col: line[1][1] as char })
    }
}

/// What the words of a line ask for. The first word decides; `VEND`,
/// `FORCE` and `STATUS` take an address of two characters as their one
/// other word.
pub open spec fn command_of(line: Seq<Seq<u8>>) -> ClientCommand {
    if line.len() == 0 {
        ClientCommand::Unknown
    } else if line[0] == word_map() {
        ClientCommand::MapAll
    } else if line[0] != word_vend() && line[0] != word_force() && line[0] != word_status() {
        ClientCommand::Unknown
    } else {
        match address_of(line) {
            Err(complaint) => complaint,
            Ok(address) => if line[0] == word_vend() {
                ClientCommand::Vend(address)
            } else if line[0] == word_force() {
                ClientCommand::Force(address)
            } else {
                ClientCommand::Status(address)
            },
        }
    }
}

/// The addresses that a map goes through: rows A to F, and in each the
/// columns 0 to 8.
pub open spec fn map_sequence() -> Seq<DispenserAddress> {
    Seq::new(
        54,
        |i: int| DispenserAddress { row: (0x41 + i / 9) as char, col: (0x30 + i % 9) as char },
    )
}

fn is_word(word: &Vec<u8>, letters: &[u8]) -> (same: bool)
    ensures
        same == (word@ == letters@),
{
    if word.len() != letters.len() {
        return false;
    }
    let mut i: usize = 0;
    while i < word.len()
        invariant
            i <= word.len(),
            word.len() == letters.len(),
            forall|k: int| 0 <= k < i ==> word@[k] == letters@[k],
        decreases word.len() - i,
    {
        if word[i] != letters[i] {
            return false;
        }
        i = i + 1;
    }
    proof {
        assert(word@ =~= letters@);
    }
    true
}

/// Decides what a line asks for, from its words.
pub fn parse_command(parts: &Vec<Vec<u8>>) -> (command: ClientCommand)
    ensures
        command == command_of(words(parts@)),
{
    if parts.len() == 0 {
        return ClientCommand::Unknown;
    }
    let vend = [0x56u8, 0x45, 0x4E, 0x44];
    let force = [0x46u8, 0x4F, 0x52, 0x43, 0x45];
    let status = [0x53u8, 0x54, 0x41, 0x54, 0x55, 0x53];
    let map = [0x4Du8, 0x41, 0x50];
    proof {
        assert(vend@ =~= word_vend());
        assert(force@ =~= word_force());
        assert(status@ =~= word_status());
        assert(map@ =~= word_map());
        assert(words(parts@)[0] == parts@[0]@);
    }
    let first = &parts[0];
    if is_word(first, map.as_slice()) {
        return ClientCommand::MapAll;
    }
    let is_vend = is_word(first, vend.as_slice());
    let is_force = is_word(first, force.as_slice());
    let is_status = is_word(first, status.as_slice());
    if !is_vend && !is_force && !is_status {
        return ClientCommand::Unknown;
    }
    if parts.len() != 2 {
        return ClientCommand::NoAddress;
    }
    proof {
        assert(words(parts@)[1] == parts@[1]@);
    }
    let second = &parts[1];
    if second.len() != 2 {
        return ClientCommand::BadAddress;
    }
    let address = DispenserAddress { row: second[0] as char, col: second[1] as char };
    if is_vend {
        ClientCommand::Vend(address)
    } else if is_force {
        ClientCommand::Force(address)
    } else {
        ClientCommand::Status(address)
    }
}

/// The addresses that a map goes through, in order.
pub fn map_addresses() -> (addresses: Vec<DispenserAddress>)
    ensures
        addresses@ == map_sequence(),
{
    let mut addresses: Vec<DispenserAddress> = Vec::new();
    let mut i: u8 = 0;
    while i < 54
        invariant
            i <= 54,
            addresses@.len() == i,
            forall|k: int| 0 <= k < i ==> addresses@[k] == map_sequence()[k],
        decreases 54 - i,
    {
        addresses.push(DispenserAddress { row: (0x41 + i / 9) as char, col: (0x30 + i % 9) as char });
        i = i + 1;
    }
    proof {
        assert(addresses@ =~= map_sequence());
    }
    addresses
}

} // verus!
