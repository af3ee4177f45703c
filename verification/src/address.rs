use vstd::prelude::*;
use vstd::string::*;

verus! {

/// The URL of `endpoint` on the server at `host`, reached with `protocol`:
/// `{protocol}://{host}/{endpoint}`.
pub fn build_address(protocol: &str, host: &str, endpoint: &str) -> (res: String)
    ensures
        res@ == protocol@ + "://"@ + host@ + "/"@ + endpoint@,
{
    let mut res = String::from_str(protocol);
    res.append("://");
    res.append(host);
    res.append("/");
    res.append(endpoint);
    res
}

} // verus!
