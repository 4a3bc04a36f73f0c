//! The six-character exchange symbol pair and the request URL built from it.

use vstd::prelude::*;
use vstd::string::StrSliceExecFns;
use vstd::string::StringExecFns;

verus! {

/// The code of an exchange symbol pair: exactly six characters, the first
/// three naming the base currency and the last three the quote currency.
pub struct ExchangeSymbolPair {
    code: String,
}

impl View for ExchangeSymbolPair {
    type V = Seq<char>;

    closed spec fn view(&self) -> Seq<char> {
        self.code@
    }
}

/// The URL that one poll tick fetches for the pair `code`:
/// the rate API's endpoint with base and quote separated by a dash.
pub open spec fn request_url_of(code: Seq<char>) -> Seq<char> {
    "https://economia.awesomeapi.com.br/last/"@ + code.subrange(0, 3) + "-"@ + code.subrange(
        3,
        6,
    )
}

impl ExchangeSymbolPair {
    /// A pair is well formed when its code has exactly six characters.
    pub open spec fn wf(&self) -> bool {
        self@.len() == 6
    }

    /// Accepts exactly the six-character codes; anything else is rejected
    /// rather than left to fail when the code is split into its halves.
    pub fn new(code: String) -> (r: Option<ExchangeSymbolPair>)
        ensures
            r is Some <==> code@.len() == 6,
            r matches Some(p) ==> p@ == code@ && p.wf(),
    {
        if code.as_str().unicode_len() == 6 {
            Some(ExchangeSymbolPair { code })
        } else {
            None
        }
    }

    /// The full six-character code.
    pub fn code(&self) -> (r: &str)
        ensures
            r@ == self@,
    {
        self.code.as_str()
    }

    /// The base currency: the first three characters.
    pub fn base(&self) -> (r: &str)
        requires
            self.wf(),
        ensures
            r@ == self@.subrange(0, 3),
    {
        self.code.as_str().substring_char(0, 3)
    }

    /// The quote currency: the last three characters.
    pub fn quote(&self) -> (r: &str)
        requires
            self.wf(),
        ensures
            r@ == self@.subrange(3, 6),
    {
        self.code.as_str().substring_char(3, 6)
    }

    /// The URL a poll tick sends its request to.
    pub fn request_url(&self) -> (r: String)
        requires
            self.wf(),
        ensures
            r@ == request_url_of(self@),
    {
        let mut url = "https://economia.awesomeapi.com.br/last/".to_owned();
        url.append(self.base());
        url.append("-");
        url.append(self.quote());
        proof {
            assert(url@ =~= request_url_of(self@));
        }
        url
    }
}

} // verus!
