//! The discovery chain: from a bare server URL to the user's address books,
//! in four exchanges, each built on what the one before it resolved.
//!
//! The client decides and the caller's transport sends. For every exchange
//! there is a function that describes the request and one that reads the
//! outcome; `begin` and `advance` string them together in the one order in
//! which they may run.

use crate::addressbook::{owned, Addressbook, AddressbookView};
use crate::credentials::{Credentials, CredentialsView};
use crate::dom::parsed_document;
use crate::error::DavError;
use crate::http::{Method, Outcome, Request, RequestView, ResponseView, NOT_FOUND};
use crate::multistatus::{
    address_books_of_body, entry_views, is_complete, lemma_listed_entries_are_complete,
    parse_addressbooks, parse_single_property, single_property_of_body, Entry, EntryView,
};
use crate::text::slice_view;
use vstd::prelude::*;
use vstd::string::StringExecFns;

verus! {

/// The body of the query for the current user's principal.
pub const PRINCIPAL_QUERY: &'static str =
    "<d:propfind xmlns:d=\"DAV:\"><d:prop><d:current-user-principal /></d:prop></d:propfind>";

/// The body of the query for the principal's address-book home set.
pub const HOME_SET_QUERY: &'static str =
    "<d:propfind xmlns:d=\"DAV:\" xmlns:c=\"urn:ietf:params:xml:ns:carddav\"><d:prop><c:addressbook-home-set /></d:prop></d:propfind>";

/// A client for one account on one server.
#[derive(Debug)]
pub struct CardDAV {
    cred: Credentials,
}

impl View for CardDAV {
    type V = CredentialsView;

    closed spec fn view(&self) -> CredentialsView {
        self.cred@
    }
}

/// The exchange that the chain is waiting for.
#[derive(Clone, Copy, Debug, PartialEq, Eq, Structural)]
pub enum Stage {
    WellKnown,
    Principal,
    HomeSet,
    Collections,
}

/// The mathematical model of a step of the chain.
pub enum StepView {
    Send(Stage, RequestView),
    Done(Seq<AddressbookView>),
    Failed(DavError),
}

/// What the chain does next.
#[derive(Debug)]
pub enum Step {
    /// Send this request, and come back with its outcome and this stage.
    Send(Stage, Request),
    /// The chain is complete: these are the address books.
    Done(Vec<Addressbook>),
    /// The chain is aborted.
    Failed(DavError),
}

/// The models of a list of address books.
pub open spec fn addressbook_views(books: Seq<Addressbook>) -> Seq<AddressbookView> {
    books.map_values(|b: Addressbook| b@)
}

impl View for Step {
    type V = StepView;

    open spec fn view(&self) -> StepView {
        match self {
            Step::Send(stage, request) => StepView::Send(*stage, request@),
            Step::Done(books) => StepView::Done(addressbook_views(books@)),
            Step::Failed(e) => StepView::Failed(*e),
        }
    }
}

/// A discovery request: a property query on `url` with the account's
/// credentials.
pub open spec fn propfind(
    cred: CredentialsView,
    url: Seq<char>,
    depth: u8,
    query: Option<Seq<char>>,
) -> RequestView {
    RequestView {
        method: Method::Propfind,
        url,
        depth: Some(depth),
        content_type: if query is Some {
            Some("application/xml"@)
        } else {
            None
        },
        if_none_match: false,
        body: query,
        username: cred.username,
        password: cred.password,
    }
}

/// The well-known location of the server's CardDAV service.
pub open spec fn well_known_url(cred: CredentialsView) -> Seq<char> {
    cred.server + "/.well-known/carddav"@
}

/// The endpoint that the well-known lookup resolves to: the server's root
/// where the server knows no such location, else the URL that it answered
/// from.
pub open spec fn endpoint_of(cred: CredentialsView, outcome: Option<ResponseView>) -> Result<
    Seq<char>,
    DavError,
> {
    match outcome {
        Some(response) => if response.status == NOT_FOUND {
            Ok(cred.server + "/"@)
        } else {
            Ok(response.url)
        },
        None => Err(DavError::Transport),
    }
}

/// The URL that a property query resolves to: the server's base URL
/// followed by the `href` that the response's body gives for the property.
pub open spec fn resolved_property(
    cred: CredentialsView,
    outcome: Option<ResponseView>,
    property: Seq<char>,
) -> Result<Seq<char>, DavError> {
    match outcome {
        Some(response) => match single_property_of_body(
            parsed_document(response.body),
            property,
        ) {
            Ok(href) => Ok(cred.server + href),
            Err(e) => Err(e),
        },
        None => Err(DavError::Transport),
    }
}

/// The address books that a collection listing yields: one for each entry
/// that the response's body names, in the order of the entries.
pub open spec fn listed_addressbooks(cred: CredentialsView, outcome: Option<ResponseView>) -> Result<
    Seq<AddressbookView>,
    DavError,
> {
    match outcome {
        Some(response) => match address_books_of_body(parsed_document(response.body)) {
            Ok(entries) => Ok(entries.map_values(|e: EntryView| owned(cred, e))),
            Err(e) => Err(e),
        },
        None => Err(DavError::Transport),
    }
}

/// The step that follows the outcome of the exchange `stage`.
pub open spec fn next_step(cred: CredentialsView, stage: Stage, outcome: Option<ResponseView>) -> StepView {
    match stage {
        Stage::WellKnown => match endpoint_of(cred, outcome) {
            Ok(endpoint) => StepView::Send(
                Stage::Principal,
                propfind(cred, endpoint, 0, Some(PRINCIPAL_QUERY@)),
            ),
            Err(e) => StepView::Failed(e),
        },
        Stage::Principal => match resolved_property(cred, outcome, "current-user-principal"@) {
            Ok(principal) => StepView::Send(
                Stage::HomeSet,
                propfind(cred, principal, 0, Some(HOME_SET_QUERY@)),
            ),
            Err(e) => StepView::Failed(e),
        },
        Stage::HomeSet => match resolved_property(cred, outcome, "addressbook-home-set"@) {
            Ok(home_set) => StepView::Send(Stage::Collections, propfind(cred, home_set, 1, None)),
            Err(e) => StepView::Failed(e),
        },
        Stage::Collections => match listed_addressbooks(cred, outcome) {
            Ok(books) => StepView::Done(books),
            Err(e) => StepView::Failed(e),
        },
    }
}

/// The exchange that follows `stage` in the chain; the last one is followed
/// by none.
pub open spec fn following(stage: Stage) -> Option<Stage> {
    match stage {
        Stage::WellKnown => Some(Stage::Principal),
        Stage::Principal => Some(Stage::HomeSet),
        Stage::HomeSet => Some(Stage::Collections),
        Stage::Collections => None,
    }
}

/// The chain runs its exchanges in order and aborts on the first failure.
///
/// A step that sends a request names the exchange right after the one that
/// was answered, and the request is a property query with the account's
/// credentials. Only the last exchange completes the chain. A transport
/// failure aborts it at any stage.
pub proof fn lemma_chain_order(cred: CredentialsView, stage: Stage, outcome: Option<ResponseView>)
    ensures
        next_step(cred, stage, outcome) matches StepView::Send(next, request) ==> following(stage)
            == Some(next),
        next_step(cred, stage, outcome) matches StepView::Send(next, request) ==> request.method
            == Method::Propfind && request.username == cred.username && request.password
            == cred.password,
        next_step(cred, stage, outcome) is Done ==> stage == Stage::Collections,
        outcome is None ==> next_step(cred, stage, outcome) == StepView::Failed(DavError::Transport),
{
}

/// Every address book that a listing yields belongs to the client that
/// asked for it, and there is one for each entry of the listing.
pub proof fn lemma_listed_books_belong_to_client(
    cred: CredentialsView,
    outcome: Option<ResponseView>,
)
    requires
        listed_addressbooks(cred, outcome) is Ok,
    ensures
        outcome is Some,
        address_books_of_body(parsed_document(outcome->0.body)) is Ok,
        listed_addressbooks(cred, outcome)->Ok_0.len() == address_books_of_body(
            parsed_document(outcome->0.body),
        )->Ok_0.len(),
        forall|i: int|
            0 <= i < listed_addressbooks(cred, outcome)->Ok_0.len() ==> (
            #[trigger] listed_addressbooks(cred, outcome)->Ok_0[i]).owner == cred,
{
}

impl CardDAV {
    /// Makes a client for the account that `cred` names.
    pub fn from_credentials(cred: Credentials) -> (client: Self)
        ensures
            client@ == cred@,
    {
        CardDAV { cred }
    }

    /// The credentials that the client was made with.
    pub fn credentials(&self) -> (cred: &Credentials)
        ensures
            cred@ == self@,
    {
        &self.cred
    }

    /// The absolute URL of a path on the server: the server's base URL
    /// followed by the path.
    pub fn resolve(&self, path: &str) -> (url: String)
        ensures
            url@ == self@.server + path@,
    {
        self.cred.server().to_owned().concat(path)
    }

    /// Describes a property query on `url`, with the body `query` if there
    /// is one.
    pub fn propfind_request(&self, url: &str, depth: u8, query: Option<&str>) -> (request: Request)
        ensures
            request@ == propfind(self@, url@, depth, slice_view(query)),
    {
        let (content_type, body) = match query {
            Some(q) => (Some("application/xml".to_owned()), Some(q.to_owned())),
            None => (None, None),
        };
        Request {
            method: Method::Propfind,
            url: url.to_owned(),
            depth: Some(depth),
            content_type,
            if_none_match: false,
            body,
            username: self.cred.username().to_owned(),
            password: self.cred.password().to_owned(),
        }
    }

    /// Describes the well-known lookup.
    pub fn well_known_request(&self) -> (request: Request)
        ensures
            request@ == propfind(self@, well_known_url(self@), 0, None),
    {
        let url = self.resolve("/.well-known/carddav");
        self.propfind_request(url.as_str(), 0, None)
    }

    /// Resolves the endpoint from the outcome of the well-known lookup.
    pub fn get_endpoint_url(&self, outcome: &Outcome) -> (r: Result<String, DavError>)
        ensures
            r matches Ok(url) ==> endpoint_of(self@, outcome@) == Ok::<Seq<char>, DavError>(url@),
            r matches Err(e) ==> endpoint_of(self@, outcome@) == Err::<Seq<char>, DavError>(e),
    {
        match outcome {
            Outcome::Answered(response) => {
                if response.status == NOT_FOUND {
                    Ok(self.resolve("/"))
                } else {
                    Ok(response.url.clone())
                }
            },
            Outcome::Failed => Err(DavError::Transport),
        }
    }

    /// Describes the principal lookup on the resolved endpoint.
    pub fn principal_request(&self, endpoint: &str) -> (request: Request)
        ensures
            request@ == propfind(self@, endpoint@, 0, Some(PRINCIPAL_QUERY@)),
    {
        self.propfind_request(endpoint, 0, Some(PRINCIPAL_QUERY))
    }

    /// Reads the URL that a property query resolved to.
    pub fn resolve_property(&self, outcome: &Outcome, property: &str) -> (r: Result<String, DavError>)
        ensures
            r matches Ok(url) ==> resolved_property(self@, outcome@, property@) == Ok::<
                Seq<char>,
                DavError,
            >(url@),
            r matches Err(e) ==> resolved_property(self@, outcome@, property@) == Err::<
                Seq<char>,
                DavError,
            >(e),
    {
        match outcome {
            Outcome::Answered(response) => {
                match parse_single_property(response.body.as_str(), property) {
                    Ok(href) => Ok(self.resolve(href.as_str())),
                    Err(e) => Err(e),
                }
            },
            Outcome::Failed => Err(DavError::Transport),
        }
    }

    /// Resolves the principal's URL from the outcome of the principal
    /// lookup.
    pub fn get_principal(&self, outcome: &Outcome) -> (r: Result<String, DavError>)
        ensures
            r matches Ok(url) ==> resolved_property(self@, outcome@, "current-user-principal"@) == Ok::<
                Seq<char>,
                DavError,
            >(url@),
            r matches Err(e) ==> resolved_property(self@, outcome@, "current-user-principal"@) == Err::<
                Seq<char>,
                DavError,
            >(e),
    {
        self.resolve_property(outcome, "current-user-principal")
    }

    /// Describes the home-set lookup on the principal's URL.
    pub fn home_set_request(&self, principal: &str) -> (request: Request)
        ensures
            request@ == propfind(self@, principal@, 0, Some(HOME_SET_QUERY@)),
    {
        self.propfind_request(principal, 0, Some(HOME_SET_QUERY))
    }

    /// Resolves the home set's URL from the outcome of the home-set lookup.
    pub fn addressbook_home_set(&self, outcome: &Outcome) -> (r: Result<String, DavError>)
        ensures
            r matches Ok(url) ==> resolved_property(self@, outcome@, "addressbook-home-set"@) == Ok::<
                Seq<char>,
                DavError,
            >(url@),
            r matches Err(e) ==> resolved_property(self@, outcome@, "addressbook-home-set"@) == Err::<
                Seq<char>,
                DavError,
            >(e),
    {
        self.resolve_property(outcome, "addressbook-home-set")
    }

    /// Describes the listing of the collections below the home set.
    pub fn addressbooks_request(&self, home_set: &str) -> (request: Request)
        ensures
            request@ == propfind(self@, home_set@, 1, None),
    {
        self.propfind_request(home_set, 1, None)
    }

    /// Makes the address books that the entries of a listing describe, each
    /// owned by a copy of this client, in the order of the entries.
    pub(crate) fn adopt(&self, entries: &Vec<Entry>) -> (books: Vec<Addressbook>)
        requires
            forall|k: int| 0 <= k < entries@.len() ==> is_complete((#[trigger] entries@[k])@),
        ensures
            addressbook_views(books@) == entry_views(entries@).map_values(
                |e: EntryView| owned(self@, e),
            ),
    {
        let mut books: Vec<Addressbook> = Vec::new();
        let mut i: usize = 0;
        while i < entries.len()
            invariant
                i <= entries.len(),
                books@.len() == i,
                forall|k: int| 0 <= k < entries@.len() ==> is_complete((#[trigger] entries@[k])@),
                forall|k: int| 0 <= k < i ==> (#[trigger] books@[k])@ == owned(self@, entries@[k]@),
            decreases entries.len() - i,
        {
            books.push(Addressbook::new(self.clone(), &entries[i]));
            i += 1;
        }
        assert(addressbook_views(books@) =~= entry_views(entries@).map_values(
            |e: EntryView| owned(self@, e),
        ));
        books
    }

    /// Reads the address books from the outcome of the collection listing.
    pub fn addressbooks(&self, outcome: &Outcome) -> (r: Result<Vec<Addressbook>, DavError>)
        ensures
            r matches Ok(books) ==> listed_addressbooks(self@, outcome@) == Ok::<
                Seq<AddressbookView>,
                DavError,
            >(addressbook_views(books@)),
            r matches Err(e) ==> listed_addressbooks(self@, outcome@) == Err::<
                Seq<AddressbookView>,
                DavError,
            >(e),
    {
        match outcome {
            Outcome::Answered(response) => {
                match parse_addressbooks(response.body.as_str()) {
                    Ok(entries) => {
                        proof {
                            lemma_listed_entries_are_complete(parsed_document(response.body@)->0);
                            assert forall|k: int| 0 <= k < entries@.len() implies is_complete(
                                (#[trigger] entries@[k])@,
                            ) by {
                                assert(entry_views(entries@)[k] == entries@[k]@);
                            }
                        }
                        Ok(self.adopt(&entries))
                    },
                    Err(e) => Err(e),
                }
            },
            Outcome::Failed => Err(DavError::Transport),
        }
    }

    /// The first step of the chain: the well-known lookup.
    pub fn begin(&self) -> (step: Step)
        ensures
            step@ == StepView::Send(
                Stage::WellKnown,
                propfind(self@, well_known_url(self@), 0, None),
            ),
    {
        Step::Send(Stage::WellKnown, self.well_known_request())
    }

    /// The step that follows the outcome of the exchange `stage`. A failure
    /// aborts the chain; otherwise the next exchange is the one after
    /// `stage`, and after the last one the chain is complete.
    pub fn advance(&self, stage: Stage, outcome: &Outcome) -> (step: Step)
        ensures
            step@ == next_step(self@, stage, outcome@),
    {
        match stage {
            Stage::WellKnown => match self.get_endpoint_url(outcome) {
                Ok(endpoint) => Step::Send(Stage::Principal, self.principal_request(endpoint.as_str())),
                Err(e) => Step::Failed(e),
            },
            Stage::Principal => match self.get_principal(outcome) {
                Ok(principal) => Step::Send(Stage::HomeSet, self.home_set_request(principal.as_str())),
                Err(e) => Step::Failed(e),
            },
            Stage::HomeSet => match self.addressbook_home_set(outcome) {
                Ok(home_set) => Step::Send(
                    Stage::Collections,
                    self.addressbooks_request(home_set.as_str()),
                ),
                Err(e) => Step::Failed(e),
            },
            Stage::Collections => match self.addressbooks(outcome) {
                Ok(books) => Step::Done(books),
                Err(e) => Step::Failed(e),
            },
        }
    }
}

impl Clone for CardDAV {
    fn clone(&self) -> (copy: Self)
        ensures
            copy@ == self@,
    {
        CardDAV { cred: self.cred.clone() }
    }
}

} // verus!
