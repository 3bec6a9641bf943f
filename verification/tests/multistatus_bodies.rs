use carddav::dom::parse_document;
use carddav::multistatus::{
    collection_entries, first_child_named, parse_addressbooks, parse_single_property,
    property_href, property_optional, response_entry, text_optional, text_required,
};
use carddav::xml::XmlElement;
use carddav::DavError;

fn leaf(name: &str) -> XmlElement {
    XmlElement { name: name.to_string(), texts: Vec::new(), children: Vec::new() }
}

fn text_leaf(name: &str, text: &str) -> XmlElement {
    XmlElement { name: name.to_string(), texts: vec![text.to_string()], children: Vec::new() }
}

fn node(name: &str, children: Vec<XmlElement>) -> XmlElement {
    XmlElement { name: name.to_string(), texts: Vec::new(), children }
}

fn response(href: &str, props: Vec<XmlElement>) -> XmlElement {
    node(
        "response",
        vec![
            text_leaf("href", href),
            node("propstat", vec![node("prop", props), text_leaf("status", "HTTP/1.1 200 OK")]),
        ],
    )
}

const LISTING: &str = "<d:multistatus xmlns:d=\"DAV:\" xmlns:cs=\"http://calendarserver.org/ns/\">\
<d:response><d:href>/test/addressbooks/</d:href>\
<d:propstat><d:prop><d:displayname>Home</d:displayname></d:prop></d:propstat></d:response>\
<d:response><d:href>/test/addressbooks/default/</d:href>\
<d:propstat><d:prop><d:displayname>Default</d:displayname>\
<d:getetag>\"etag-1\"</d:getetag><cs:getctag>ctag-1</cs:getctag></d:prop>\
<d:status>HTTP/1.1 200 OK</d:status></d:propstat></d:response>\
<d:response><d:href>/test/addressbooks/work/</d:href>\
<d:propstat><d:prop><d:displayname>Work</d:displayname>\
<d:getetag>\"etag-2\"</d:getetag><cs:getctag>ctag-2</cs:getctag></d:prop>\
<d:status>HTTP/1.1 200 OK</d:status></d:propstat></d:response>\
</d:multistatus>";

#[test]
fn document_is_copied_with_names_texts_and_children_in_order() {
    let root = parse_document(
        "<d:root xmlns:d=\"DAV:\" xmlns:c=\"urn:ietf:params:xml:ns:carddav\">hello<d:one>1</d:one> \
         world<c:two><d:inner/></c:two></d:root>",
    )
    .unwrap();
    assert_eq!(root.name, "root");
    assert_eq!(root.texts, vec!["hello".to_string(), " world".to_string()]);
    assert_eq!(root.children.len(), 2);
    assert_eq!(root.children[0].name, "one");
    assert_eq!(root.children[0].texts, vec!["1".to_string()]);
    assert!(root.children[0].children.is_empty());
    assert_eq!(root.children[1].name, "two");
    assert!(root.children[1].texts.is_empty());
    assert_eq!(root.children[1].children.len(), 1);
    assert_eq!(root.children[1].children[0].name, "inner");
}

#[test]
fn element_copy_matches_the_parsed_element() {
    let parsed: minidom::Element =
        "<a xmlns=\"DAV:\"><b>x</b><c/></a>".parse().unwrap();
    let copy = XmlElement::from_dom(&parsed);
    assert_eq!(copy.name, parsed.name());
    assert_eq!(copy.children.len(), parsed.children().count());
    assert_eq!(copy.children[0].name, "b");
    assert_eq!(copy.children[0].texts, vec!["x".to_string()]);
    assert_eq!(copy.children[1].name, "c");
}

#[test]
fn text_that_is_not_xml_is_malformed() {
    assert_eq!(parse_document("this is not xml").err(), Some(DavError::MalformedResponse));
    assert_eq!(parse_document("").err(), Some(DavError::MalformedResponse));
    assert_eq!(parse_document("<a xmlns=\"DAV:\"><b></a>").err(), Some(DavError::MalformedResponse));
}

#[test]
fn single_property_reads_href_below_the_property() {
    let body = "<d:multistatus xmlns:d=\"DAV:\"><d:response><d:href>/</d:href><d:propstat><d:prop>\
<d:current-user-principal><d:href>/test/</d:href></d:current-user-principal>\
</d:prop><d:status>HTTP/1.1 200 OK</d:status></d:propstat></d:response></d:multistatus>";
    assert_eq!(parse_single_property(body, "current-user-principal"), Ok("/test/".to_string()));
}

#[test]
fn single_property_ignores_namespace_prefixes() {
    let body = "<multistatus xmlns=\"DAV:\" xmlns:card=\"urn:ietf:params:xml:ns:carddav\">\
<card:addressbook-home-set><href>/test/addressbooks/</href></card:addressbook-home-set></multistatus>";
    assert_eq!(
        parse_single_property(body, "addressbook-home-set"),
        Ok("/test/addressbooks/".to_string())
    );
}

#[test]
fn single_property_of_unparsable_body_is_malformed() {
    assert_eq!(
        parse_single_property("<oops", "current-user-principal"),
        Err(DavError::MalformedResponse)
    );
}

#[test]
fn single_property_missing_property_is_malformed() {
    let root = node("multistatus", vec![node("response", vec![text_leaf("href", "/")])]);
    assert_eq!(property_href(&root, "current-user-principal"), Err(DavError::MalformedResponse));
}

#[test]
fn single_property_missing_href_is_malformed() {
    let root = node("multistatus", vec![node("current-user-principal", vec![leaf("unauthenticated")])]);
    assert_eq!(property_href(&root, "current-user-principal"), Err(DavError::MalformedResponse));
    let bare = node("multistatus", vec![leaf("current-user-principal")]);
    assert_eq!(property_href(&bare, "current-user-principal"), Err(DavError::MalformedResponse));
}

#[test]
fn single_property_empty_text_is_malformed() {
    let no_text = node("multistatus", vec![node("current-user-principal", vec![leaf("href")])]);
    assert_eq!(property_href(&no_text, "current-user-principal"), Err(DavError::MalformedResponse));
    let empty = node("multistatus", vec![node("current-user-principal", vec![text_leaf("href", "")])]);
    assert_eq!(property_href(&empty, "current-user-principal"), Err(DavError::MalformedResponse));
}

#[test]
fn single_property_takes_the_first_text_segment() {
    let href = XmlElement {
        name: "href".to_string(),
        texts: vec!["/one/".to_string(), "/two/".to_string()],
        children: Vec::new(),
    };
    let root = node("multistatus", vec![node("current-user-principal", vec![href])]);
    assert_eq!(property_href(&root, "current-user-principal"), Ok("/one/".to_string()));
}

#[test]
fn listing_with_home_set_and_two_books_gives_two_entries_in_order() {
    let entries = parse_addressbooks(LISTING).unwrap();
    assert_eq!(entries.len(), 2);
    assert_eq!(entries[0].url, "/test/addressbooks/default/");
    assert_eq!(entries[0].display_name, "Default");
    assert_eq!(entries[0].etag, Some("\"etag-1\"".to_string()));
    assert_eq!(entries[0].ctag, Some("ctag-1".to_string()));
    assert_eq!(entries[1].url, "/test/addressbooks/work/");
    assert_eq!(entries[1].display_name, "Work");
    assert_eq!(entries[1].etag, Some("\"etag-2\"".to_string()));
    assert_eq!(entries[1].ctag, Some("ctag-2".to_string()));
}

#[test]
fn listing_skips_the_first_child_even_if_it_is_malformed() {
    let root = node(
        "multistatus",
        vec![leaf("response"), response("/books/a/", vec![text_leaf("displayname", "A")])],
    );
    let entries = collection_entries(&root).unwrap();
    assert_eq!(entries.len(), 1);
    assert_eq!(entries[0].url, "/books/a/");
    assert_eq!(entries[0].display_name, "A");
    assert_eq!(entries[0].etag, None);
    assert_eq!(entries[0].ctag, None);
}

#[test]
fn listing_without_children_or_with_only_the_home_set_is_empty() {
    assert!(collection_entries(&leaf("multistatus")).unwrap().is_empty());
    let only_home = node("multistatus", vec![response("/books/", vec![text_leaf("displayname", "Home")])]);
    assert!(collection_entries(&only_home).unwrap().is_empty());
}

#[test]
fn response_missing_displayname_is_malformed() {
    let entry = response("/books/a/", vec![text_leaf("getetag", "e")]);
    assert_eq!(response_entry(&entry).err(), Some(DavError::MalformedResponse));
    let root = node(
        "multistatus",
        vec![
            response("/books/", vec![text_leaf("displayname", "Home")]),
            response("/books/a/", vec![text_leaf("displayname", "A")]),
            entry,
        ],
    );
    assert_eq!(collection_entries(&root).err(), Some(DavError::MalformedResponse));
}

#[test]
fn listing_body_with_response_missing_displayname_is_malformed() {
    let body = "<d:multistatus xmlns:d=\"DAV:\">\
<d:response><d:href>/books/</d:href><d:propstat><d:prop/></d:propstat></d:response>\
<d:response><d:href>/books/a/</d:href><d:propstat><d:prop><d:getetag>e</d:getetag></d:prop></d:propstat></d:response>\
</d:multistatus>";
    assert_eq!(parse_addressbooks(body).err(), Some(DavError::MalformedResponse));
}

#[test]
fn response_with_empty_displayname_is_malformed() {
    let no_text = response("/books/a/", vec![leaf("displayname")]);
    assert_eq!(response_entry(&no_text).err(), Some(DavError::MalformedResponse));
    let empty = response("/books/a/", vec![text_leaf("displayname", "")]);
    assert_eq!(response_entry(&empty).err(), Some(DavError::MalformedResponse));
}

#[test]
fn response_missing_prop_is_malformed() {
    let entry = node("response", vec![text_leaf("href", "/books/a/")]);
    assert_eq!(response_entry(&entry).err(), Some(DavError::MalformedResponse));
}

#[test]
fn response_missing_href_is_malformed() {
    let entry = node(
        "response",
        vec![node("propstat", vec![node("prop", vec![text_leaf("displayname", "A")])])],
    );
    assert_eq!(response_entry(&entry).err(), Some(DavError::MalformedResponse));
    let empty_href = response("", vec![text_leaf("displayname", "A")]);
    assert_eq!(response_entry(&empty_href).err(), Some(DavError::MalformedResponse));
}

#[test]
fn response_href_is_read_from_the_response_not_from_prop() {
    let entry = response(
        "/outer/",
        vec![text_leaf("href", "/inner/"), text_leaf("displayname", "A")],
    );
    assert_eq!(response_entry(&entry).unwrap().url, "/outer/");
}

#[test]
fn response_tags_without_text_are_present_and_empty() {
    let entry = response(
        "/books/a/",
        vec![text_leaf("displayname", "A"), leaf("getetag"), text_leaf("getctag", "c")],
    );
    let read = response_entry(&entry).unwrap();
    assert_eq!(read.etag, Some(String::new()));
    assert_eq!(read.ctag, Some("c".to_string()));
}

#[test]
fn listing_of_unparsable_body_is_malformed() {
    assert_eq!(parse_addressbooks("<d:multistatus").err(), Some(DavError::MalformedResponse));
}

#[test]
fn first_child_named_takes_the_first_direct_child() {
    let parent = node(
        "prop",
        vec![
            node("wrapper", vec![text_leaf("getetag", "nested")]),
            text_leaf("getetag", "first"),
            text_leaf("getetag", "second"),
        ],
    );
    let found = first_child_named(&parent, "getetag").unwrap();
    assert_eq!(found.texts, vec!["first".to_string()]);
    assert!(first_child_named(&parent, "getctag").is_none());
    assert!(first_child_named(&leaf("prop"), "getetag").is_none());
}

#[test]
fn element_texts_are_read_by_their_first_segment() {
    let two = XmlElement {
        name: "x".to_string(),
        texts: vec!["a".to_string(), "b".to_string()],
        children: Vec::new(),
    };
    assert_eq!(text_required(&two), Some("a".to_string()));
    assert_eq!(text_optional(&two), "a");
    assert_eq!(text_required(&leaf("x")), None);
    assert_eq!(text_optional(&leaf("x")), "");
    assert_eq!(text_required(&text_leaf("x", "")), None);
    let prop = node("prop", vec![text_leaf("getetag", "e"), leaf("getctag")]);
    assert_eq!(property_optional(&prop, "getetag"), Some("e".to_string()));
    assert_eq!(property_optional(&prop, "getctag"), Some(String::new()));
    assert_eq!(property_optional(&prop, "displayname"), None);
}
