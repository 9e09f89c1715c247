//! The set record family and the endpoint its queries go to.

use vstd::prelude::*;
use vstd::string::StringExecFns;
use crate::request::Requester;
use crate::request::SearchOptions;
use crate::shared::Legality;

verus! {

/// The two pictures of a set.
#[derive(Debug, Clone)]
pub struct SetImage {
    pub symbol: String,
    pub logo: String,
}

/// One set of the catalog.
#[derive(Debug, Clone)]
pub struct SetData {
    pub id: String,
    pub name: String,
    pub series: String,
    pub printed_total: u16,
    pub total: u16,
    pub legalities: Legality,
    pub ptcgo_code: String,
    pub release_date: String,
    pub updated_at: String,
    pub images: SetImage,
}

/// The sets endpoint: the names under which set queries are issued.
/// The network calls themselves are driven by the application; the
/// endpoint names they use are fixed here.
pub struct Sets;

/// The endpoint of every set query.
pub open spec fn spec_sets_endpoint() -> Seq<char> {
    "sets"@
}

impl Sets {
    /// The endpoint a list or search query goes to.
    pub fn endpoint() -> (r: String)
        ensures
            r@ == spec_sets_endpoint(),
    {
        "sets".to_owned()
    }

    /// The endpoint a lookup of the set with identifier `id` goes to.
    pub fn find_endpoint(id: &str) -> (r: String)
        ensures
            r@ == spec_sets_endpoint() + "/"@ + id@,
    {
        let mut endpoint = "sets".to_owned();
        endpoint.append("/");
        endpoint.append(id);
        proof {
            assert(endpoint@ =~= spec_sets_endpoint() + "/"@ + id@);
        }
        endpoint
    }

    /// The requester of a full, unfiltered list of sets.
    pub fn all_requester() -> (r: Requester)
        ensures
            r.endpoint@ == spec_sets_endpoint(),
            r.options.spec_is_default(),
    {
        Requester::new(Self::endpoint().as_str())
    }

    /// The requester of one page of sets matching `options`.
    pub fn search_requester(options: SearchOptions) -> (r: Requester)
        ensures
            r.endpoint@ == spec_sets_endpoint(),
            r.options == options,
    {
        let mut requester = Requester::new(Self::endpoint().as_str());
        requester.parse_options(options);
        requester
    }

    /// The requester of the single set with identifier `id`.
    pub fn find_requester(id: &str) -> (r: Requester)
        ensures
            r.endpoint@ == spec_sets_endpoint() + "/"@ + id@,
            r.options.spec_is_default(),
    {
        Requester::new(Self::find_endpoint(id).as_str())
    }
}

} // verus!
