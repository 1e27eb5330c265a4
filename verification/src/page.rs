//! The normalized result shape handed back to callers: an HTTP status, an
//! ordered header sequence, and a textual body.

use vstd::prelude::*;

verus! {

/// One HTTP header: a name/value pair of strings.
pub struct HttpHeader {
    pub name: String,
    pub value: String,
}

/// Mathematical model of a header: both strings as character sequences.
pub ghost struct HeaderModel {
    pub name: Seq<char>,
    pub value: Seq<char>,
}

impl View for HttpHeader {
    type V = HeaderModel;

    open spec fn view(&self) -> HeaderModel {
        HeaderModel { name: self.name@, value: self.value@ }
    }
}

/// The uniform result of a fetch: always carries a status, headers and a
/// textual body, whether the transport succeeded or failed.
pub struct PageResult {
    pub status: u128,
    pub headers: Vec<HttpHeader>,
    pub body: String,
}

/// Mathematical model of a `PageResult`.
pub ghost struct PageModel {
    pub status: int,
    pub headers: Seq<HeaderModel>,
    pub body: Seq<char>,
}

impl View for PageResult {
    type V = PageModel;

    open spec fn view(&self) -> PageModel {
        PageModel {
            status: self.status as int,
            headers: self.headers@.map_values(|h: HttpHeader| h@),
            body: self.body@,
        }
    }
}

} // verus!
