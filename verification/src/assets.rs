//! Names for the peripheral endpoints: the asset file an id pair refers
//! to, the download header value for it, and the upstream request URL for
//! one id. The service around this library does the actual file and
//! network I/O; only the strings are computed (and specified) here.

use vstd::prelude::*;
use crate::decimal::{dec_rep, u16_decimal};

verus! {

/// `{id1}.{id2}.png`
pub open spec fn image_name_model(id1: u16, id2: u16) -> Seq<char> {
    dec_rep(id1 as nat) + "."@ + dec_rep(id2 as nat) + ".png"@
}

/// The asset file name for an id pair.
pub fn image_file_name(id1: u16, id2: u16) -> (r: String)
    ensures
        r@ == image_name_model(id1, id2),
{
    let mut s = u16_decimal(id1);
    s.append(".");
    let second = u16_decimal(id2);
    s.append(second.as_str());
    s.append(".png");
    proof {
        assert(s@ =~= image_name_model(id1, id2));
    }
    s
}

/// `attachment; filename="{id1}.{id2}.png"`
pub open spec fn attachment_disposition_model(id1: u16, id2: u16) -> Seq<char> {
    "attachment; filename=\""@ + image_name_model(id1, id2) + "\""@
}

/// The download-disposition header value for an id pair's asset.
pub fn attachment_disposition(id1: u16, id2: u16) -> (r: String)
    ensures
        r@ == attachment_disposition_model(id1, id2),
{
    let mut s = String::from_str("attachment; filename=\"");
    let name = image_file_name(id1, id2);
    s.append(name.as_str());
    s.append("\"");
    proof {
        assert(s@ =~= attachment_disposition_model(id1, id2));
    }
    s
}

/// `https://pokeapi.co/api/v2/pokemon/{id}`
pub open spec fn api_url_model(id: u16) -> Seq<char> {
    "https://pokeapi.co/api/v2/pokemon/"@ + dec_rep(id as nat)
}

/// The upstream request URL for one id.
pub fn api_url(id: u16) -> (r: String)
    ensures
        r@ == api_url_model(id),
{
    let mut s = String::from_str("https://pokeapi.co/api/v2/pokemon/");
    let digits = u16_decimal(id);
    s.append(digits.as_str());
    proof {
        assert(s@ =~= api_url_model(id));
    }
    s
}

} // verus!
