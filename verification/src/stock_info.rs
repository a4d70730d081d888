//! The catalogue: what is stocked at an address, and what it costs.

use vstd::prelude::*;

verus! {

/// An item of the catalogue.
#[derive(Clone, Debug, PartialEq, Eq)]
pub struct StockItem {
    pub row: char,
    pub col: char,
    pub name: String,
    pub image_url: String,
    /// The price in pence.
    pub price: u16,
}

/// An item of the catalogue as a value of the logic.
pub ghost struct StockItemModel {
    pub row: char,
    pub col: char,
    pub name: Seq<char>,
    pub image_url: Seq<char>,
    pub price: u16,
}

impl StockItem {
    /// The item as a value of the logic.
    pub open spec fn view(self) -> StockItemModel {
        StockItemModel {
            row: self.row,
            col: self.col,
            name: self.name@,
            image_url: self.image_url@,
            price: self.price,
        }
    }
}

/// The name, the image and the price of what is stocked at an address.
///
/// Rows A and B are stocked on the even columns 0 to 6; nothing else is.
pub open spec fn catalogue(row: char, col: char) -> Option<(Seq<char>, Seq<char>, u16)> {
    if row == 'A' && col == '0' {
        Some(("Scampi Fries"@, "images/scampi.jpg"@, 90u16))
    } else if row == 'A' && col == '2' {
        Some(("Bacon Fries"@, "images/baconfries.jpg"@, 90u16))
    } else if row == 'A' && col == '4' {
        Some(("Crinklies"@, "images/crinklies.jpg"@, 100u16))
    } else if row == 'A' && col == '6' {
        Some(("Monster Munch"@, "images/monstermunch.jpg"@, 100u16))
    } else if row == 'B' && col == '0' {
        Some(("Tangy Cheese Doritos"@, "images/tangycheesedoritos.jpg"@, 100u16))
    } else if row == 'B' && col == '2' {
        Some(("Chilli Doritos"@, "images/chilliheatwavedoritos.jpg"@, 100u16))
    } else if row == 'B' && col == '4' {
        Some(("Soba Noodles"@, "./doritos.jpg"@, 150u16))
    } else if row == 'B' && col == '6' {
        Some(("Super Noodles"@, "./doritos.jpg"@, 130u16))
    } else {
        None
    }
}

/// What is stocked at an address, as a value of the logic.
pub open spec fn stock_item(row: char, col: char) -> Option<StockItemModel> {
    match catalogue(row, col) {
        Some((name, image_url, price)) => Some(StockItemModel { row, col, name, image_url, price }),
        None => None,
    }
}

/// The price of what is stocked at an address.
pub open spec fn stock_price(row: char, col: char) -> Option<u16> {
    match catalogue(row, col) {
        Some((_, _, price)) => Some(price),
        None => None,
    }
}

fn item(row: char, col: char, name: &str, image_url: &str, price: u16) -> (item: StockItem)
    ensures
        item@ == (StockItemModel { row, col, name: name@, image_url: image_url@, price }),
{
    StockItem { row, col, name: name.to_owned(), image_url: image_url.to_owned(), price }
}

/// Looks up what is stocked at an address.
pub fn get_stock_item(row: char, col: char) -> (found: Option<StockItem>)
    ensures
        found is Some == stock_item(row, col) is Some,
        found matches Some(item) ==> item@ == stock_item(row, col)->0,
{
    match row {
        'A' => match col {
            '0' => Some(item(row, col, "Scampi Fries", "images/scampi.jpg", 90)),
            '2' => Some(item(row, col, "Bacon Fries", "images/baconfries.jpg", 90)),
            '4' => Some(item(row, col, "Crinklies", "images/crinklies.jpg", 100)),
            '6' => Some(item(row, col, "Monster Munch", "images/monstermunch.jpg", 100)),
            _ => None,
        },
        'B' => match col {
            '0' => Some(
                item(row, col, "Tangy Cheese Doritos", "images/tangycheesedoritos.jpg", 100),
            ),
            '2' => Some(item(row, col, "Chilli Doritos", "images/chilliheatwavedoritos.jpg", 100)),
            '4' => Some(item(row, col, "Soba Noodles", "./doritos.jpg", 150)),
            '6' => Some(item(row, col, "Super Noodles", "./doritos.jpg", 130)),
            _ => None,
        },
        _ => None,
    }
}

/// Everything in the catalogue is stocked at an address where a dispenser
/// is wired.
pub proof fn lemma_catalogue_is_wired(row: char, col: char)
    requires
        catalogue(row, col) is Some,
    ensures
        crate::motor_driver::wired(crate::dispenser::DispenserAddress { row, col }),
{
}

} // verus!
