use vstd::prelude::*;

verus! {

/// How many endpoints a full run contacts.
pub const ENDPOINT_COUNT: usize = 3;

/// REST endpoint returning a listing of dog breeds.
pub open spec fn dog_api_url_spec() -> Seq<char> {
    "https://dog.ceo/api/breeds/list/all"@
}

/// REST endpoint returning cat facts.
pub open spec fn cat_api_url_spec() -> Seq<char> {
    "https://cat-fact.herokuapp.com/facts"@
}

/// REST endpoint echoing the request.
pub open spec fn http_bin_url_spec() -> Seq<char> {
    "https://httpbin.org/get"@
}

/// The URL of the i-th fetch of a run: dog breeds first, then cat facts,
/// then the echo endpoint.
pub open spec fn endpoint_url_spec(i: int) -> Seq<char> {
    if i == 0 {
        dog_api_url_spec()
    } else if i == 1 {
        cat_api_url_spec()
    } else {
        http_bin_url_spec()
    }
}

pub fn dog_api_url() -> (r: &'static str)
    ensures
        r@ == dog_api_url_spec(),
{
    "https://dog.ceo/api/breeds/list/all"
}

pub fn cat_api_url() -> (r: &'static str)
    ensures
        r@ == cat_api_url_spec(),
{
    "https://cat-fact.herokuapp.com/facts"
}

pub fn http_bin_url() -> (r: &'static str)
    ensures
        r@ == http_bin_url_spec(),
{
    "https://httpbin.org/get"
}

/// The i-th endpoint of a run, in the fixed order a run contacts them.
pub fn endpoint_url(i: usize) -> (r: &'static str)
    requires
        i < ENDPOINT_COUNT,
    ensures
        r@ == endpoint_url_spec(i as int),
{
    if i == 0 {
        dog_api_url()
    } else if i == 1 {
        cat_api_url()
    } else {
        http_bin_url()
    }
}

} // verus!
