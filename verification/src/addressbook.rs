//! One address-book collection and the two exchanges that work on it.

use crate::client::CardDAV;
use crate::credentials::CredentialsView;
use crate::error::DavError;
use crate::http::{
    is_success, Method, Outcome, Request, RequestView, ResponseView, PRECONDITION_FAILED,
};
use crate::multistatus::{is_complete, Entry, EntryView};
use crate::text::{copy_text, text_view};
use vstd::prelude::*;
use vstd::string::StringExecFns;

verus! {

/// The mathematical model of an address book.
pub struct AddressbookView {
    pub owner: CredentialsView,
    pub url: Seq<char>,
    pub display_name: Seq<char>,
    pub etag: Option<Seq<char>>,
    pub ctag: Option<Seq<char>>,
}

/// An address-book collection of the account that `cd` works for. `url` is
/// the collection's path, relative to the server's base URL. Address books
/// are made by the discovery chain only.
#[derive(Debug)]
pub struct Addressbook {
    cd: CardDAV,
    url: String,
    display_name: String,
    etag: Option<String>,
    ctag: Option<String>,
}

impl View for Addressbook {
    type V = AddressbookView;

    closed spec fn view(&self) -> AddressbookView {
        AddressbookView {
            owner: self.cd@,
            url: self.url@,
            display_name: self.display_name@,
            etag: text_view(self.etag),
            ctag: text_view(self.ctag),
        }
    }
}

/// The address book that an entry of a collection listing describes, owned
/// by the client with the credentials `cred`.
pub open spec fn owned(cred: CredentialsView, entry: EntryView) -> AddressbookView {
    AddressbookView {
        owner: cred,
        url: entry.url,
        display_name: entry.display_name,
        etag: entry.etag,
        ctag: entry.ctag,
    }
}

/// The absolute URL of an address book: the owner's server base URL
/// followed by the collection's path.
pub open spec fn absolute_url(book: AddressbookView) -> Seq<char> {
    book.owner.server + book.url
}

/// The request that fetches the contents of an address book.
pub open spec fn dump_request(book: AddressbookView) -> RequestView {
    RequestView {
        method: Method::Get,
        url: absolute_url(book),
        depth: Some(1u8),
        content_type: None,
        if_none_match: false,
        body: None,
        username: book.owner.username,
        password: book.owner.password,
    }
}

/// What a dump yields: the response's body as it came.
pub open spec fn dumped(outcome: Option<ResponseView>) -> Result<Seq<char>, DavError> {
    match outcome {
        Some(response) => Ok(response.body),
        None => Err(DavError::Transport),
    }
}

/// The request that stores the contact `id` with the content `vcard`, on
/// condition that no contact with that id exists.
pub open spec fn create_request(book: AddressbookView, id: Seq<char>, vcard: Seq<char>) -> RequestView {
    RequestView {
        method: Method::Put,
        url: absolute_url(book) + id + ".vcf"@,
        depth: None,
        content_type: Some("text/vcard"@),
        if_none_match: true,
        body: Some(vcard),
        username: book.owner.username,
        password: book.owner.password,
    }
}

/// Whether a contact was created: a taken id is told apart from every other
/// refusal.
pub open spec fn created(outcome: Option<ResponseView>) -> Result<(), DavError> {
    match outcome {
        Some(response) => if response.status == PRECONDITION_FAILED {
            Err(DavError::PreconditionFailed)
        } else if is_success(response.status) {
            Ok(())
        } else {
            Err(DavError::UnexpectedStatus(response.status))
        },
        None => Err(DavError::Transport),
    }
}

impl Addressbook {
    /// An address book always has a path and a display name.
    #[verifier::type_invariant]
    spec fn well_formed(self) -> bool {
        self.url@.len() > 0 && self.display_name@.len() > 0
    }

    /// Makes the address book that `entry` describes, owned by `cd`.
    pub(crate) fn new(cd: CardDAV, entry: &Entry) -> (book: Self)
        requires
            is_complete(entry@),
        ensures
            book@ == owned(cd@, entry@),
    {
        Addressbook {
            cd,
            url: entry.url.clone(),
            display_name: entry.display_name.clone(),
            etag: copy_text(&entry.etag),
            ctag: copy_text(&entry.ctag),
        }
    }

    /// The client that owns the address book.
    pub fn client(&self) -> (cd: &CardDAV)
        ensures
            cd@ == self@.owner,
    {
        &self.cd
    }

    /// The collection's path, relative to the server's base URL.
    pub fn url(&self) -> (s: &str)
        ensures
            s@ == self@.url,
            s@.len() > 0,
    {
        proof {
            use_type_invariant(self);
        }
        self.url.as_str()
    }

    /// The collection's display name.
    pub fn display_name(&self) -> (s: &str)
        ensures
            s@ == self@.display_name,
            s@.len() > 0,
    {
        proof {
            use_type_invariant(self);
        }
        self.display_name.as_str()
    }

    /// The collection's entity tag, if the server advertised one.
    pub fn etag(&self) -> (tag: Option<&str>)
        ensures
            tag matches Some(s) ==> self@.etag == Some(s@),
            tag is None ==> self@.etag is None,
    {
        match &self.etag {
            Some(s) => Some(s.as_str()),
            None => None,
        }
    }

    /// The collection's collection tag, if the server advertised one.
    pub fn ctag(&self) -> (tag: Option<&str>)
        ensures
            tag matches Some(s) ==> self@.ctag == Some(s@),
            tag is None ==> self@.ctag is None,
    {
        match &self.ctag {
            Some(s) => Some(s.as_str()),
            None => None,
        }
    }

    /// The collection's absolute URL.
    pub fn location(&self) -> (url: String)
        ensures
            url@ == absolute_url(self@),
    {
        self.cd.resolve(self.url.as_str())
    }

    /// Describes the request that fetches the contents of the address book.
    pub fn vcard_dump_request(&self) -> (request: Request)
        ensures
            request@ == dump_request(self@),
    {
        Request {
            method: Method::Get,
            url: self.location(),
            depth: Some(1),
            content_type: None,
            if_none_match: false,
            body: None,
            username: self.cd.credentials().username().to_owned(),
            password: self.cd.credentials().password().to_owned(),
        }
    }

    /// Reads the contents of the address book from the outcome of the dump.
    pub fn vcard_dump(&self, outcome: &Outcome) -> (r: Result<String, DavError>)
        ensures
            r matches Ok(body) ==> dumped(outcome@) == Ok::<Seq<char>, DavError>(body@),
            r matches Err(e) ==> dumped(outcome@) == Err::<Seq<char>, DavError>(e),
    {
        match outcome {
            Outcome::Answered(response) => Ok(response.body.clone()),
            Outcome::Failed => Err(DavError::Transport),
        }
    }

    /// Describes the request that stores the contact `id` with the content
    /// `vcard`.
    pub fn create_contact_request(&self, id: &str, vcard: &str) -> (request: Request)
        ensures
            request@ == create_request(self@, id@, vcard@),
    {
        Request {
            method: Method::Put,
            url: self.location().concat(id).concat(".vcf"),
            depth: None,
            content_type: Some("text/vcard".to_owned()),
            if_none_match: true,
            body: Some(vcard.to_owned()),
            username: self.cd.credentials().username().to_owned(),
            password: self.cd.credentials().password().to_owned(),
        }
    }

    /// Judges the outcome of storing a contact.
    pub fn create_contact(&self, outcome: &Outcome) -> (r: Result<(), DavError>)
        ensures
            r == created(outcome@),
    {
        match outcome {
            Outcome::Answered(response) => {
                if response.status == PRECONDITION_FAILED {
                    Err(DavError::PreconditionFailed)
                } else if 200 <= response.status && response.status <= 299 {
                    Ok(())
                } else {
                    Err(DavError::UnexpectedStatus(response.status))
                }
            },
            Outcome::Failed => Err(DavError::Transport),
        }
    }
}

} // verus!
