//! Items, and what can be done with an item in an inventory.
use vstd::prelude::*;
use crate::client::{ApiClient, ApiError, HttpMethod, HttpRequest, api_base, request_for, url_base};

verus! {

/// An item, known by its hash in the manifest.
#[derive(PartialEq, Eq, Structural, Clone, Copy, Debug)]
pub struct Item {
    pub hash: i64,
}

/// The endpoint of the armory search for items.
pub open spec fn item_search_url(search: Seq<char>) -> Seq<char> {
    api_base() + "/Destiny2/Armory/Search/DestinyInventoryItemDefinition/"@ + search + "/"@
}

impl Item {
    /// The item with the given hash.
    pub fn new(hash: i64) -> (r: Item)
        ensures
            r.hash == hash,
    {
        Item { hash }
    }

    /// The request of the armory search for items.
    pub fn search(client: &ApiClient, search: &str) -> (r: HttpRequest)
        ensures
            r@ == request_for(HttpMethod::Get, client@.key, item_search_url(search@), seq![], None),
    {
        let url = String::from_str(url_base());
        let url = url.concat("/Destiny2/Armory/Search/DestinyInventoryItemDefinition/");
        let url = url.concat(search);
        let url = url.concat("/");
        assert(url@ =~= item_search_url(search@));
        client.get(url)
    }
}

/// What a program can do with an item in an inventory; the program supplies
/// how.
pub trait Equippable {
    fn equip(&self) -> Result<(), ApiError>;

    fn transfer_to_vault(&self) -> Result<(), ApiError>;

    fn transfer_to_character(&self) -> Result<(), ApiError>;
}

} // verus!
