use varnish_guest::syscalls::{SysCalls, SyscallFrame};
use varnish_guest::varnish::{
    add_full_req_header, add_full_resp_header, add_req_header, add_resp_header, format_header_line,
    get_req_header, get_url, self_request, set_url, CachingDecision, CallbackTable, HeaderScope,
    HeaderStore, NOT_FOUND,
};

fn store_with_url(url: &str) -> HeaderStore {
    let mut s = HeaderStore::new();
    s.req.push(b"GET".to_vec());
    s.req.push(url.as_bytes().to_vec());
    s
}

#[test]
fn opcode_numbers_match_the_host_contract() {
    assert_eq!(SysCalls::Print.opcode(), 502);
    assert_eq!(SysCalls::RegisterCallback.opcode(), 509);
    assert_eq!(SysCalls::SetDecision.opcode(), 510);
    assert_eq!(SysCalls::BackendDecision.opcode(), 512);
    assert_eq!(SysCalls::HashData.opcode(), 514);
    assert_eq!(SysCalls::HeaderFieldRetrieve.opcode(), 521);
    assert_eq!(SysCalls::HeaderFieldAppend.opcode(), 522);
    assert_eq!(SysCalls::HeaderFieldSet.opcode(), 523);
    assert_eq!(SysCalls::HeaderFieldFind.opcode(), 530);
    assert_eq!(SysCalls::RegisterNamedFunction.opcode(), 539);
    assert_eq!(SysCalls::Base64Decode.opcode(), 538);
}

#[test]
fn scope_and_decision_codes() {
    assert_eq!(HeaderScope::Request.code(), 0);
    assert_eq!(HeaderScope::Response.code(), 2);
    assert_eq!(HeaderScope::BackendRequest.code(), 4);
    assert_eq!(HeaderScope::BackendResponse.code(), 5);
    assert_eq!(CachingDecision::Uncached.code(), 0);
    assert_eq!(CachingDecision::Cached.code(), 1);
}

#[test]
fn append_then_find_then_get_returns_the_appended_text() {
    let mut s = HeaderStore::new();
    s.header_append(HeaderScope::Request, b"Host: example.com");
    add_req_header(&mut s, "X-Count", b"42");
    let idx = s.header_find(HeaderScope::Request, b"X-Count");
    assert_ne!(idx, NOT_FOUND);
    let line = s.get_header_field(HeaderScope::Request, idx).unwrap();
    assert_eq!(line, b"X-Count: 42".to_vec());
}

#[test]
fn find_misses_give_the_sentinel() {
    let mut s = HeaderStore::new();
    s.header_append(HeaderScope::Request, b"Host: example.com");
    assert_eq!(s.header_find(HeaderScope::Request, b"Hos"), NOT_FOUND);
    assert_eq!(s.header_find(HeaderScope::Request, b"Missing"), NOT_FOUND);
    assert_eq!(s.header_find(HeaderScope::Response, b"Host"), NOT_FOUND);
}

#[test]
fn find_returns_the_first_match() {
    let mut s = HeaderStore::new();
    s.header_append(HeaderScope::Request, b"A: one");
    s.header_append(HeaderScope::Request, b"B: two");
    s.header_append(HeaderScope::Request, b"B: three");
    assert_eq!(s.header_find(HeaderScope::Request, b"B"), 1);
}

#[test]
fn two_phase_length_query_is_idempotent() {
    let mut s = HeaderStore::new();
    s.header_append(HeaderScope::Response, b"Cache-Control: no-store");
    let (len1, _) = s.header_field_retrieve(HeaderScope::Response, 0, 0);
    let (len2, _) = s.header_field_retrieve(HeaderScope::Response, 0, 0);
    assert_eq!(len1, len2);
    assert_eq!(len1, b"Cache-Control: no-store".len());
}

#[test]
fn fill_sized_to_the_report_never_truncates() {
    let mut s = HeaderStore::new();
    s.header_append(HeaderScope::Response, b"Cache-Control: no-store");
    let (len, _) = s.header_field_retrieve(HeaderScope::Response, 0, 0);
    let (_, filled) = s.header_field_retrieve(HeaderScope::Response, 0, len);
    assert_eq!(filled, b"Cache-Control: no-store".to_vec());
}

#[test]
fn short_capacity_fills_a_prefix() {
    let mut s = HeaderStore::new();
    s.header_append(HeaderScope::Request, b"Host: example.com");
    let (len, part) = s.header_field_retrieve(HeaderScope::Request, 0, 4);
    assert_eq!(len, b"Host: example.com".len());
    assert_eq!(part, b"Host".to_vec());
}

#[test]
fn retrieve_of_absent_index_reports_not_found() {
    let s = HeaderStore::new();
    let (len, data) = s.header_field_retrieve(HeaderScope::Request, 0, 0);
    assert_eq!(len, NOT_FOUND);
    assert!(data.is_empty());
    assert!(s.get_header_field(HeaderScope::Request, 3).is_none());
}

#[test]
fn set_header_field_replaces_positionally() {
    let mut s = store_with_url("/old");
    s.set_header_field(HeaderScope::Request, 1, b"/new");
    assert_eq!(get_url(&s), b"/new".to_vec());
    s.set_header_field(HeaderScope::Request, 9, b"ignored");
    assert_eq!(s.req.len(), 2);
}

#[test]
fn url_round_trip() {
    let mut s = store_with_url("/first");
    assert_eq!(get_url(&s), b"/first".to_vec());
    set_url(&mut s, b"/second");
    assert_eq!(get_url(&s), b"/second".to_vec());
}

#[test]
fn get_req_header_returns_the_full_line_or_empty() {
    let mut s = HeaderStore::new();
    add_req_header(&mut s, "X-Hello", b"/path");
    assert_eq!(get_req_header(&s, "X-Hello"), b"X-Hello: /path".to_vec());
    assert_eq!(get_req_header(&s, "X-Missing"), Vec::<u8>::new());
}

#[test]
fn full_header_lines_are_appended_verbatim() {
    let mut s = HeaderStore::new();
    add_full_req_header(&mut s, b"Raw-Req: yes");
    add_full_resp_header(&mut s, b"Raw-Resp: yes");
    add_resp_header(&mut s, "Tag", b"v");
    assert_eq!(s.req[0], b"Raw-Req: yes".to_vec());
    assert_eq!(s.resp[0], b"Raw-Resp: yes".to_vec());
    assert_eq!(s.resp[1], b"Tag: v".to_vec());
}

#[test]
fn header_line_formatting() {
    assert_eq!(format_header_line("Name", b"value"), b"Name: value".to_vec());
    assert_eq!(format_header_line("E", b""), b"E: ".to_vec());
}

#[test]
fn self_request_reports_fixed_success() {
    assert_eq!(self_request("/anything"), 200);
}

#[test]
fn callback_table_last_registration_wins() {
    let mut t = CallbackTable::new();
    assert_eq!(t.slot_lookup(7), None);
    t.register_callback(7, 1);
    t.register_callback(3, 9);
    t.register_callback(7, 2);
    assert_eq!(t.slot_lookup(7), Some(2));
    assert_eq!(t.slot_lookup(3), Some(9));
    t.register_function("f", 5);
    t.register_function("f", 6);
    assert_eq!(t.named_lookup(b"f"), Some(6));
    assert_eq!(t.named_lookup(b"g"), None);
}

#[test]
fn set_on_deliver_and_wait_for_requests_fill_their_slots() {
    let mut t = CallbackTable::new();
    t.set_on_deliver(11);
    t.wait_for_requests(12);
    assert_eq!(t.slot_lookup(7), Some(11));
    assert_eq!(t.slot_lookup(0), Some(12));
}

#[test]
fn syscall_frame_marshals_opcode_and_operands() {
    let f = SyscallFrame::new(SysCalls::HeaderFieldFind, 0, 7, 9, 0, 0);
    assert_eq!(f.op.opcode(), 530);
    assert_eq!(f.args, [0, 7, 9, 0, 0]);
}
