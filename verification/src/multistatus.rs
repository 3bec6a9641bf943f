//! Reading WebDAV `multistatus` bodies: one property's `href`, or the list
//! of address-book collections below a home set.
//!
//! A body in which a required element or text is missing is malformed, and
//! one malformed entry makes the whole body malformed: no entry is skipped
//! and none is filled in with a placeholder.

use crate::dom::{parse_document, parsed_document};
use crate::error::DavError;
use crate::text::{same_text, text_view};
use crate::xml::{find, find_element_recursive, Tree, XmlElement};
use vstd::prelude::*;

verus! {

/// The mathematical model of an address-book entry.
pub struct EntryView {
    pub url: Seq<char>,
    pub display_name: Seq<char>,
    pub etag: Option<Seq<char>>,
    pub ctag: Option<Seq<char>>,
}

/// What one `response` element of a collection listing says of a collection:
/// its path on the server, its display name and the change tokens that the
/// server advertised for it.
#[derive(Debug, PartialEq, Eq)]
pub struct Entry {
    pub url: String,
    pub display_name: String,
    pub etag: Option<String>,
    pub ctag: Option<String>,
}

impl View for Entry {
    type V = EntryView;

    open spec fn view(&self) -> EntryView {
        EntryView {
            url: self.url@,
            display_name: self.display_name@,
            etag: text_view(self.etag),
            ctag: text_view(self.ctag),
        }
    }
}

/// Whether an entry names its collection: neither its path nor its display
/// name is empty.
pub open spec fn is_complete(entry: EntryView) -> bool {
    entry.url.len() > 0 && entry.display_name.len() > 0
}

/// The index of the first element of `children`, at or after `from`, that is
/// named `name`; `children.len()` when there is none.
pub open spec fn first_named(children: Seq<Tree>, name: Seq<char>, from: int) -> int
    decreases children.len() - from,
{
    if from < 0 || from >= children.len() {
        children.len() as int
    } else if children[from].name == name {
        from
    } else {
        first_named(children, name, from + 1)
    }
}

/// The first child of `parent` that is named `name`.
pub open spec fn child_named(parent: Tree, name: Seq<char>) -> Option<Tree> {
    let i = first_named(parent.children, name, 0);
    if 0 <= i < parent.children.len() {
        Some(parent.children[i])
    } else {
        None
    }
}

/// The text that a required element must carry: its first text segment,
/// which must not be empty.
pub open spec fn required_text(el: Tree) -> Option<Seq<char>> {
    if el.texts.len() > 0 && el.texts[0].len() > 0 {
        Some(el.texts[0])
    } else {
        None
    }
}

/// The text of an optional element: its first text segment, or the empty
/// text when it has none.
pub open spec fn optional_text(el: Tree) -> Seq<char> {
    if el.texts.len() > 0 {
        el.texts[0]
    } else {
        Seq::empty()
    }
}

/// The text of the optional child `name` of `prop`, if there is such a child.
pub open spec fn optional_property(prop: Tree, name: Seq<char>) -> Option<Seq<char>> {
    match child_named(prop, name) {
        Some(el) => Some(optional_text(el)),
        None => None,
    }
}

/// The value of the property `property` in a document: the text of the
/// `href` found below the property element.
pub open spec fn single_property(root: Tree, property: Seq<char>) -> Result<Seq<char>, DavError> {
    match find(root, property) {
        Some(prop) => match find(prop, "href"@) {
            Some(href) => match required_text(href) {
                Some(text) => Ok(text),
                None => Err(DavError::MalformedResponse),
            },
            None => Err(DavError::MalformedResponse),
        },
        None => Err(DavError::MalformedResponse),
    }
}

/// The entry that one `response` element describes. The `href` is a child of
/// the response itself; the display name and the tags are children of the
/// `prop` element found below it.
pub open spec fn entry_of(response: Tree) -> Result<EntryView, DavError> {
    match (find(response, "prop"@), child_named(response, "href"@)) {
        (Some(prop), Some(href)) => match (
            required_text(href),
            child_named(prop, "displayname"@),
        ) {
            (Some(url), Some(name)) => match required_text(name) {
                Some(display_name) => Ok(
                    EntryView {
                        url,
                        display_name,
                        etag: optional_property(prop, "getetag"@),
                        ctag: optional_property(prop, "getctag"@),
                    },
                ),
                None => Err(DavError::MalformedResponse),
            },
            _ => Err(DavError::MalformedResponse),
        },
        _ => Err(DavError::MalformedResponse),
    }
}

/// The entries of a sequence of `response` elements, in order; malformed as
/// soon as one of them is.
pub open spec fn entries_of(responses: Seq<Tree>) -> Result<Seq<EntryView>, DavError> {
    if forall|i: int| 0 <= i < responses.len() ==> (#[trigger] entry_of(responses[i])) is Ok {
        Ok(Seq::new(responses.len(), |i: int| entry_of(responses[i])->Ok_0))
    } else {
        Err(DavError::MalformedResponse)
    }
}

/// The address books that a collection listing names. The first child of
/// the document stands for the home set itself and is not an address book.
pub open spec fn address_books(root: Tree) -> Result<Seq<EntryView>, DavError> {
    if root.children.len() <= 1 {
        Ok(Seq::empty())
    } else {
        entries_of(root.children.subrange(1, root.children.len() as int))
    }
}

/// What a response body says of the property `property`, given the document
/// that the parser read from it.
pub open spec fn single_property_of_body(document: Option<Tree>, property: Seq<char>) -> Result<
    Seq<char>,
    DavError,
> {
    match document {
        Some(root) => single_property(root, property),
        None => Err(DavError::MalformedResponse),
    }
}

/// The address books that a response body names, given the document that
/// the parser read from it.
pub open spec fn address_books_of_body(document: Option<Tree>) -> Result<Seq<EntryView>, DavError> {
    match document {
        Some(root) => address_books(root),
        None => Err(DavError::MalformedResponse),
    }
}

/// The models of a list of entries.
pub open spec fn entry_views(entries: Seq<Entry>) -> Seq<EntryView> {
    entries.map_values(|e: Entry| e@)
}

/// `first_named` yields the least index, from `from` on, of an element named
/// `name`.
pub proof fn lemma_first_named(children: Seq<Tree>, name: Seq<char>, from: int)
    requires
        0 <= from <= children.len(),
    ensures
        from <= first_named(children, name, from) <= children.len(),
        forall|j: int|
            from <= j < first_named(children, name, from) ==> (#[trigger] children[j]).name != name,
        first_named(children, name, from) < children.len() ==> children[first_named(
            children,
            name,
            from,
        )].name == name,
    decreases children.len() - from,
{
    if from < children.len() && children[from].name != name {
        lemma_first_named(children, name, from + 1);
    }
}

/// A `response` element whose `prop` has no `displayname` child describes no
/// entry: it is malformed.
pub proof fn lemma_entry_needs_display_name(response: Tree)
    requires
        find(response, "prop"@) matches Some(prop) ==> forall|i: int|
            0 <= i < prop.children.len() ==> (#[trigger] prop.children[i]).name != "displayname"@,
    ensures
        entry_of(response) == Err::<EntryView, DavError>(DavError::MalformedResponse),
{
    if let Some(prop) = find(response, "prop"@) {
        lemma_first_named(prop.children, "displayname"@, 0);
    }
}

/// An entry never carries an empty path or an empty display name.
pub proof fn lemma_entry_is_complete(response: Tree)
    ensures
        entry_of(response) matches Ok(entry) ==> is_complete(entry),
{
}

/// A well-formed listing names one address book for each child of the
/// document but the first, in document order.
pub proof fn lemma_address_books_in_document_order(root: Tree)
    requires
        address_books(root) is Ok,
    ensures
        root.children.len() == 0 ==> address_books(root)->Ok_0.len() == 0,
        root.children.len() > 0 ==> address_books(root)->Ok_0.len() == root.children.len() - 1,
        forall|i: int|
            0 <= i < address_books(root)->Ok_0.len() ==> entry_of(#[trigger] root.children[i + 1])
                == Ok::<EntryView, DavError>(address_books(root)->Ok_0[i]),
{
    if root.children.len() > 1 {
        let responses = root.children.subrange(1, root.children.len() as int);
        assert forall|i: int| 0 <= i < address_books(root)->Ok_0.len() implies entry_of(
            #[trigger] root.children[i + 1],
        ) == Ok::<EntryView, DavError>(address_books(root)->Ok_0[i]) by {
            assert(responses[i] == root.children[i + 1]);
            assert(entry_of(responses[i]) is Ok);
        }
    }
}

/// No entry of a well-formed listing carries an empty path or an empty
/// display name.
pub proof fn lemma_listed_entries_are_complete(root: Tree)
    requires
        address_books(root) is Ok,
    ensures
        forall|i: int|
            0 <= i < address_books(root)->Ok_0.len() ==> is_complete(
                #[trigger] address_books(root)->Ok_0[i],
            ),
{
    lemma_address_books_in_document_order(root);
    assert forall|i: int| 0 <= i < address_books(root)->Ok_0.len() implies is_complete(
        #[trigger] address_books(root)->Ok_0[i],
    ) by {
        lemma_entry_is_complete(root.children[i + 1]);
    }
}

/// One malformed entry, anywhere after the first child, makes the whole
/// listing malformed.
pub proof fn lemma_malformed_entry_fails_listing(root: Tree, i: int)
    requires
        1 <= i < root.children.len(),
        entry_of(root.children[i]) is Err,
    ensures
        address_books(root) == Err::<Seq<EntryView>, DavError>(DavError::MalformedResponse),
{
    let responses = root.children.subrange(1, root.children.len() as int);
    assert(responses[i - 1] == root.children[i]);
    assert(!(entry_of(responses[i - 1]) is Ok));
}

/// Finds the first child of `parent` that is named `name`.
pub fn first_child_named<'a>(parent: &'a XmlElement, name: &str) -> (found: Option<&'a XmlElement>)
    ensures
        found matches Some(e) ==> child_named(parent@, name@) == Some(e@),
        found is None ==> child_named(parent@, name@) is None,
{
    proof {
        parent.lemma_view();
    }
    let mut i: usize = 0;
    while i < parent.children.len()
        invariant
            i <= parent.children.len(),
            parent@.children.len() == parent.children@.len(),
            forall|k: int|
                0 <= k < parent.children@.len() ==> parent@.children[k] == (
                #[trigger] parent.children@[k])@,
            first_named(parent@.children, name@, 0) == first_named(parent@.children, name@, i as int),
        decreases parent.children.len() - i,
    {
        let child = &parent.children[i];
        proof {
            child.lemma_view();
        }
        if same_text(child.name.as_str(), name) {
            return Some(child);
        }
        i += 1;
    }
    None
}

/// Reads the text of a required element.
pub fn text_required(el: &XmlElement) -> (text: Option<String>)
    ensures
        text_view(text) == required_text(el@),
{
    proof {
        el.lemma_view();
    }
    if el.texts.len() > 0 && !el.texts[0].as_str().is_empty() {
        Some(el.texts[0].clone())
    } else {
        None
    }
}

/// Reads the text of an optional element.
pub fn text_optional(el: &XmlElement) -> (text: String)
    ensures
        text@ == optional_text(el@),
{
    proof {
        el.lemma_view();
    }
    if el.texts.len() > 0 {
        el.texts[0].clone()
    } else {
        String::new()
    }
}

/// Reads the optional child `name` of `prop`.
pub fn property_optional(prop: &XmlElement, name: &str) -> (text: Option<String>)
    ensures
        text_view(text) == optional_property(prop@, name@),
{
    match first_child_named(prop, name) {
        Some(el) => Some(text_optional(el)),
        None => None,
    }
}

/// Extracts the value of the property `property` from a parsed document.
pub fn property_href(root: &XmlElement, property: &str) -> (r: Result<String, DavError>)
    ensures
        r matches Ok(text) ==> single_property(root@, property@) == Ok::<Seq<char>, DavError>(text@),
        r matches Err(e) ==> single_property(root@, property@) == Err::<Seq<char>, DavError>(e),
{
    let prop = match find_element_recursive(root, property) {
        Some(prop) => prop,
        None => return Err(DavError::MalformedResponse),
    };
    let href = match find_element_recursive(prop, "href") {
        Some(href) => href,
        None => return Err(DavError::MalformedResponse),
    };
    match text_required(href) {
        Some(text) => Ok(text),
        None => Err(DavError::MalformedResponse),
    }
}

/// Extracts the value of the property `property` from a response body.
pub fn parse_single_property(xml_body: &str, property: &str) -> (r: Result<String, DavError>)
    ensures
        r matches Ok(text) ==> single_property_of_body(parsed_document(xml_body@), property@) == Ok::<
            Seq<char>,
            DavError,
        >(text@),
        r matches Err(e) ==> single_property_of_body(parsed_document(xml_body@), property@) == Err::<
            Seq<char>,
            DavError,
        >(e),
{
    match parse_document(xml_body) {
        Ok(root) => property_href(&root, property),
        Err(e) => Err(e),
    }
}

/// Reads one `response` element of a collection listing.
pub fn response_entry(response: &XmlElement) -> (r: Result<Entry, DavError>)
    ensures
        r matches Ok(entry) ==> entry_of(response@) == Ok::<EntryView, DavError>(entry@),
        r matches Err(e) ==> entry_of(response@) == Err::<EntryView, DavError>(e),
{
    let prop = match find_element_recursive(response, "prop") {
        Some(prop) => prop,
        None => return Err(DavError::MalformedResponse),
    };
    let href = match first_child_named(response, "href") {
        Some(href) => href,
        None => return Err(DavError::MalformedResponse),
    };
    let name = match first_child_named(prop, "displayname") {
        Some(name) => name,
        None => return Err(DavError::MalformedResponse),
    };
    let url = match text_required(href) {
        Some(url) => url,
        None => return Err(DavError::MalformedResponse),
    };
    let display_name = match text_required(name) {
        Some(display_name) => display_name,
        None => return Err(DavError::MalformedResponse),
    };
    let etag = property_optional(prop, "getetag");
    let ctag = property_optional(prop, "getctag");
    Ok(Entry { url, display_name, etag, ctag })
}

/// Lists the address books that a parsed collection listing names.
pub fn collection_entries(root: &XmlElement) -> (r: Result<Vec<Entry>, DavError>)
    ensures
        r matches Ok(entries) ==> address_books(root@) == Ok::<Seq<EntryView>, DavError>(
            entry_views(entries@),
        ),
        r matches Err(e) ==> address_books(root@) == Err::<Seq<EntryView>, DavError>(e),
{
    proof {
        root.lemma_view();
    }
    let mut entries: Vec<Entry> = Vec::new();
    if root.children.len() <= 1 {
        assert(entry_views(entries@) =~= Seq::<EntryView>::empty());
        return Ok(entries);
    }
    let ghost responses = root@.children.subrange(1, root@.children.len() as int);
    let mut i: usize = 1;
    while i < root.children.len()
        invariant
            1 <= i <= root.children.len(),
            root@.children.len() == root.children@.len(),
            forall|k: int|
                0 <= k < root.children@.len() ==> root@.children[k] == (#[trigger] root.children@[k])@,
            responses == root@.children.subrange(1, root@.children.len() as int),
            entries@.len() == i - 1,
            forall|k: int|
                0 <= k < i - 1 ==> entry_of(responses[k]) == Ok::<EntryView, DavError>(
                    (#[trigger] entries@[k])@,
                ),
        decreases root.children.len() - i,
    {
        let response = &root.children[i];
        assert(response@ == responses[i - 1]);
        match response_entry(response) {
            Ok(entry) => {
                entries.push(entry);
            },
            Err(e) => {
                assert(!(entry_of(responses[i - 1]) is Ok));
                return Err(e);
            },
        }
        i += 1;
    }
    proof {
        assert forall|k: int| 0 <= k < responses.len() implies (#[trigger] entry_of(
            responses[k],
        )) is Ok by {
            assert(entry_of(responses[k]) == Ok::<EntryView, DavError>(entries@[k]@));
        }
        assert(entry_views(entries@) =~= entries_of(responses)->Ok_0);
    }
    Ok(entries)
}

/// Lists the address books that the body of a collection listing names.
pub fn parse_addressbooks(xml_body: &str) -> (r: Result<Vec<Entry>, DavError>)
    ensures
        r matches Ok(entries) ==> address_books_of_body(parsed_document(xml_body@)) == Ok::<
            Seq<EntryView>,
            DavError,
        >(entry_views(entries@)),
        r matches Err(e) ==> address_books_of_body(parsed_document(xml_body@)) == Err::<
            Seq<EntryView>,
            DavError,
        >(e),
{
    match parse_document(xml_body) {
        Ok(root) => collection_entries(&root),
        Err(e) => Err(e),
    }
}

} // verus!
