//! Identifiers and links used when saving, exporting, and scrolling.

use vstd::prelude::*;
use vstd::string::*;
use crate::encoding::{encode, url_encoded};

verus! {

/// Stable DOM id for broker workflow cards.
pub fn broker_element_id(site_id: &str) -> (r: String)
    ensures
        r@ == "broker-"@ + site_id@,
{
    "broker-".to_owned().concat(site_id)
}

/// The download link for exported state: a JSON data URL holding the encoded text.
pub fn export_href(raw: &str) -> (r: String)
    ensures
        r@ == "data:application/json;charset=utf-8,"@ + url_encoded(raw@),
{
    let encoded = encode(raw);
    "data:application/json;charset=utf-8,".to_owned().concat(encoded.as_str())
}

} // verus!
