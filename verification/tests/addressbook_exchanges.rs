use carddav::http::{Method, Outcome, Response};
use carddav::{Addressbook, CardDAV, Credentials, DavError};

const LISTING: &str = "<d:multistatus xmlns:d=\"DAV:\">\
<d:response><d:href>/test/addressbooks/</d:href><d:propstat><d:prop>\
<d:displayname>Home</d:displayname></d:prop></d:propstat></d:response>\
<d:response><d:href>/test/addressbooks/default/</d:href><d:propstat><d:prop>\
<d:displayname>Default</d:displayname><d:getetag>\"e\"</d:getetag></d:prop></d:propstat></d:response>\
</d:multistatus>";

fn book() -> Addressbook {
    let cd = CardDAV::from_credentials(Credentials::new("test", "1234", "http://localhost:5232"));
    let listing = Outcome::Answered(Response {
        status: 207,
        url: "http://localhost:5232/test/addressbooks/".to_string(),
        body: LISTING.to_string(),
    });
    let mut books = cd.addressbooks(&listing).unwrap();
    assert_eq!(books.len(), 1);
    books.remove(0)
}

fn answered(status: u16, body: &str) -> Outcome {
    Outcome::Answered(Response {
        status,
        url: "http://localhost:5232/test/addressbooks/default/".to_string(),
        body: body.to_string(),
    })
}

#[test]
fn addressbook_keeps_its_entry_and_owner() {
    let b = book();
    assert_eq!(b.url(), "/test/addressbooks/default/");
    assert_eq!(b.display_name(), "Default");
    assert_eq!(b.etag(), Some("\"e\""));
    assert_eq!(b.ctag(), None);
    assert_eq!(b.client().credentials().username(), "test");
}

#[test]
fn addressbook_location_is_server_followed_by_path() {
    assert_eq!(book().location(), "http://localhost:5232/test/addressbooks/default/");
}

#[test]
fn dump_request_is_a_get_one_level_deep() {
    let request = book().vcard_dump_request();
    assert_eq!(request.method, Method::Get);
    assert_eq!(request.url, "http://localhost:5232/test/addressbooks/default/");
    assert_eq!(request.depth, Some(1));
    assert_eq!(request.content_type, None);
    assert!(!request.if_none_match);
    assert_eq!(request.body, None);
    assert_eq!(request.username, "test");
    assert_eq!(request.password, "1234");
}

#[test]
fn dump_returns_the_body_verbatim() {
    let body = "BEGIN:VCARD\r\nVERSION:3.0\r\nFN:A <b> & c\r\nEND:VCARD\r\n";
    assert_eq!(book().vcard_dump(&answered(200, body)), Ok(body.to_string()));
    assert_eq!(book().vcard_dump(&answered(207, "")), Ok(String::new()));
    assert_eq!(book().vcard_dump(&answered(404, "gone")), Ok("gone".to_string()));
}

#[test]
fn dump_transport_failure_is_reported() {
    assert_eq!(book().vcard_dump(&Outcome::Failed), Err(DavError::Transport));
}

#[test]
fn create_request_is_a_conditional_put_of_the_vcard() {
    let vcard = "BEGIN:VCARD\r\nVERSION:3.0\r\nFN:Test\r\nEND:VCARD\r\n";
    let request = book().create_contact_request("test-id", vcard);
    assert_eq!(request.method, Method::Put);
    assert_eq!(request.url, "http://localhost:5232/test/addressbooks/default/test-id.vcf");
    assert_eq!(request.depth, None);
    assert_eq!(request.content_type, Some("text/vcard".to_string()));
    assert!(request.if_none_match);
    assert_eq!(request.body, Some(vcard.to_string()));
    assert_eq!(request.username, "test");
    assert_eq!(request.password, "1234");
}

#[test]
fn create_contact_precondition_failed_is_surfaced() {
    assert_eq!(book().create_contact(&answered(412, "")), Err(DavError::PreconditionFailed));
}

#[test]
fn create_contact_succeeds_on_success_status() {
    let b = book();
    for status in [200u16, 201, 204, 299] {
        assert_eq!(b.create_contact(&answered(status, "")), Ok(()));
    }
}

#[test]
fn create_contact_other_status_is_unexpected() {
    let b = book();
    for status in [100u16, 199, 300, 301, 401, 403, 404, 411, 413, 500, 507] {
        assert_eq!(b.create_contact(&answered(status, "")), Err(DavError::UnexpectedStatus(status)));
    }
}

#[test]
fn create_contact_transport_failure_is_reported() {
    assert_eq!(book().create_contact(&Outcome::Failed), Err(DavError::Transport));
}
