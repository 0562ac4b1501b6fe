//! The header-field access protocol and the request-lifecycle state machine.
//!
//! Header fields live in four host-side scopes and are reached by
//! (scope, index) or (scope, name).  Retrieval is two-phase: a length query
//! with zero capacity first, then a fill sized exactly to the reported
//! length, so the guest never over-allocates for unbounded header text.
//! "Not found" is the maximum value of the index type, never an exception.
//!
//! A lifecycle event is answered by forging exactly one response.  Forging
//! consumes the event's `EventToken`, so no second decision can be taken for
//! the same event: forge is terminal by construction, the way the diverging
//! hand-off is terminal at the real boundary.

use crate::sysalloc::{bytes_eq, push_all};
use vstd::prelude::*;
use vstd::slice::slice_subrange;
use vstd::string::StringSliceAdditionalSpecFns;

verus! {

/// The "not found" sentinel: the maximum value of the index type.  Callers
/// compare against it explicitly; it is never a valid index or length.
pub const NOT_FOUND: usize = usize::MAX;

/// Which header collection an operation targets.  The numeric values are a
/// fixed contract with the host.
#[derive(Clone, Copy, PartialEq, Eq, Structural, Debug)]
pub enum HeaderScope {
    Request,
    BackendRequest,
    Response,
    BackendResponse,
}

impl HeaderScope {
    /// The scope's operand register value at the boundary.
    pub fn code(self) -> (r: u32)
        ensures
            self is Request ==> r == 0,
            self is Response ==> r == 2,
            self is BackendRequest ==> r == 4,
            self is BackendResponse ==> r == 5,
    {
        match self {
            HeaderScope::Request => 0,
            HeaderScope::Response => 2,
            HeaderScope::BackendRequest => 4,
            HeaderScope::BackendResponse => 5,
        }
    }
}

/// A full header line "Name: Value" as the protocol writes it.
pub open spec fn spec_header_line(name: Seq<u8>, value: Seq<u8>) -> Seq<u8> {
    name + seq![58u8, 32u8] + value
}

/// Whether a stored line carries the given field name: the name itself,
/// immediately followed by a colon.  Matching is by exact bytes; the host may
/// fold case, but this model fixes one deterministic convention.
pub open spec fn spec_has_name(line: Seq<u8>, name: Seq<u8>) -> bool {
    line.len() > name.len() && line.subrange(0, name.len() as int) == name && line[name.len() as int]
        == 58u8
}

/// The host-side header store: one ordered line collection per scope.
pub struct HeaderStore {
    pub req: Vec<Vec<u8>>,
    pub bereq: Vec<Vec<u8>>,
    pub resp: Vec<Vec<u8>>,
    pub beresp: Vec<Vec<u8>>,
}

/// The lines of one collection, as byte sequences.
pub open spec fn vec_lines(v: Seq<Vec<u8>>) -> Seq<Seq<u8>> {
    v.map_values(|x: Vec<u8>| x@)
}

/// A collection small enough that neither a valid index nor a valid length
/// can collide with the `NOT_FOUND` sentinel.
pub open spec fn wf_lines(s: Seq<Seq<u8>>) -> bool {
    s.len() < NOT_FOUND && forall|i: int| 0 <= i < s.len() ==> (#[trigger] s[i]).len() < NOT_FOUND
}

impl HeaderStore {
    /// The lines of the given scope, in order.
    pub open spec fn lines(&self, scope: HeaderScope) -> Seq<Seq<u8>> {
        match scope {
            HeaderScope::Request => vec_lines(self.req@),
            HeaderScope::BackendRequest => vec_lines(self.bereq@),
            HeaderScope::Response => vec_lines(self.resp@),
            HeaderScope::BackendResponse => vec_lines(self.beresp@),
        }
    }

    /// Every scope stays clear of the sentinel values.
    pub open spec fn wf(&self) -> bool {
        &&& wf_lines(self.lines(HeaderScope::Request))
        &&& wf_lines(self.lines(HeaderScope::BackendRequest))
        &&& wf_lines(self.lines(HeaderScope::Response))
        &&& wf_lines(self.lines(HeaderScope::BackendResponse))
    }

    /// An empty store.
    pub fn new() -> (s: HeaderStore)
        ensures
            s.wf(),
            forall|sc: HeaderScope| (#[trigger] s.lines(sc)).len() == 0,
    {
        let s = HeaderStore { req: Vec::new(), bereq: Vec::new(), resp: Vec::new(), beresp: Vec::new() };
        proof {
            assert forall|sc: HeaderScope| (#[trigger] s.lines(sc)).len() == 0 by {
                match sc {
                    HeaderScope::Request => assert(s.lines(sc) =~= vec_lines(s.req@)),
                    HeaderScope::BackendRequest => assert(s.lines(sc) =~= vec_lines(s.bereq@)),
                    HeaderScope::Response => assert(s.lines(sc) =~= vec_lines(s.resp@)),
                    HeaderScope::BackendResponse => assert(s.lines(sc) =~= vec_lines(s.beresp@)),
                }
            }
        }
        s
    }

    /// `HeaderFieldRetrieve`: the two-phase retrieval primitive.  Reports the
    /// field's length (or `NOT_FOUND` for an absent index) and hands back at
    /// most `cap` leading bytes of it, so a zero-capacity call is a pure
    /// length query and a call at the reported length fills completely.
    pub fn header_field_retrieve(&self, scope: HeaderScope, index: usize, cap: usize) -> (r: (
        usize,
        Vec<u8>,
    ))
        requires
            self.wf(),
        ensures
            index < self.lines(scope).len() ==> {
                let line = self.lines(scope)[index as int];
                &&& r.0 == line.len()
                &&& r.1@ == line.subrange(
                    0,
                    if cap < line.len() {
                        cap as int
                    } else {
                        line.len() as int
                    },
                )
            },
            index >= self.lines(scope).len() ==> r.0 == NOT_FOUND && r.1@ == Seq::<u8>::empty(),
    {
        let v: &Vec<Vec<u8>> = match scope {
            HeaderScope::Request => &self.req,
            HeaderScope::BackendRequest => &self.bereq,
            HeaderScope::Response => &self.resp,
            HeaderScope::BackendResponse => &self.beresp,
        };
        proof {
            assert(self.lines(scope) =~= vec_lines(v@));
        }
        if index >= v.len() {
            let empty: Vec<u8> = Vec::new();
            proof {
                assert(empty@ =~= Seq::<u8>::empty());
            }
            return (NOT_FOUND, empty);
        }
        let line: &Vec<u8> = &v[index];
        let len = line.len();
        let take = if cap < len {
            cap
        } else {
            len
        };
        let part = slice_subrange(line.as_slice(), 0, take);
        let mut out: Vec<u8> = Vec::new();
        push_all(&mut out, part);
        (len, out)
    }

    /// Two-phase read of a whole field: a zero-capacity length query, then a
    /// fill sized exactly to the reported length.  Absent indices give
    /// `None`; a present field always comes back whole, untruncated.
    pub fn get_header_field(&self, scope: HeaderScope, index: usize) -> (r: Option<Vec<u8>>)
        requires
            self.wf(),
        ensures
            index < self.lines(scope).len() ==> (r matches Some(v) && v@ == self.lines(
                scope,
            )[index as int]),
            index >= self.lines(scope).len() ==> r is None,
    {
        let (reported, _) = self.header_field_retrieve(scope, index, 0);
        if reported == NOT_FOUND {
            return None;
        }
        let (_, filled) = self.header_field_retrieve(scope, index, reported);
        proof {
            let line = self.lines(scope)[index as int];
            assert(filled@ =~= line);
        }
        Some(filled)
    }

    /// `HeaderFieldFind`: index of the first field with the given name, or
    /// the `NOT_FOUND` sentinel, which the caller must compare against
    /// explicitly.
    pub fn header_find(&self, scope: HeaderScope, name: &[u8]) -> (r: usize)
        requires
            self.wf(),
        ensures
            r == NOT_FOUND ==> forall|k: int|
                0 <= k < self.lines(scope).len() ==> !spec_has_name(
                    #[trigger] self.lines(scope)[k],
                    name@,
                ),
            r != NOT_FOUND ==> r < self.lines(scope).len() && spec_has_name(
                self.lines(scope)[r as int],
                name@,
            ) && forall|k: int| 0 <= k < r ==> !spec_has_name(#[trigger] self.lines(scope)[k], name@),
    {
        let v: &Vec<Vec<u8>> = match scope {
            HeaderScope::Request => &self.req,
            HeaderScope::BackendRequest => &self.bereq,
            HeaderScope::Response => &self.resp,
            HeaderScope::BackendResponse => &self.beresp,
        };
        proof {
            assert(self.lines(scope) =~= vec_lines(v@));
        }
        let mut i: usize = 0;
        while i < v.len()
            invariant
                self.wf(),
                self.lines(scope) =~= vec_lines(v@),
                i <= v@.len(),
                v@.len() < NOT_FOUND,
                forall|k: int|
                    0 <= k < i ==> !spec_has_name(#[trigger] self.lines(scope)[k], name@),
            decreases v@.len() - i,
        {
            let line: &Vec<u8> = &v[i];
            if line.len() > name.len() {
                let prefix = slice_subrange(line.as_slice(), 0, name.len());
                if bytes_eq(prefix, name) && line[name.len()] == 58u8 {
                    proof {
                        assert(spec_has_name(self.lines(scope)[i as int], name@));
                    }
                    return i;
                }
            }
            proof {
                assert(!spec_has_name(self.lines(scope)[i as int], name@));
            }
            i = i + 1;
        }
        NOT_FOUND
    }

    /// `HeaderFieldAppend`: adds a full header line verbatim, order
    /// preserving, no uniqueness enforced; the other scopes stand untouched.
    pub fn header_append(&mut self, scope: HeaderScope, line: &[u8])
        requires
            old(self).wf(),
            line@.len() < NOT_FOUND,
            old(self).lines(scope).len() + 1 < NOT_FOUND,
        ensures
            final(self).wf(),
            final(self).lines(scope) =~= old(self).lines(scope).push(line@),
            forall|sc: HeaderScope|
                sc != scope ==> #[trigger] final(self).lines(sc) == old(self).lines(sc),
    {
        let owned = vstd::slice::slice_to_vec(line);
        match scope {
            HeaderScope::Request => self.req.push(owned),
            HeaderScope::BackendRequest => self.bereq.push(owned),
            HeaderScope::Response => self.resp.push(owned),
            HeaderScope::BackendResponse => self.beresp.push(owned),
        }
        proof {
            assert(final(self).lines(scope) =~= old(self).lines(scope).push(line@));
            assert forall|sc: HeaderScope| sc != scope implies #[trigger] final(self).lines(sc)
                == old(self).lines(sc) by {
                assert(final(self).lines(sc) =~= old(self).lines(sc));
            }
        }
    }

    /// `HeaderFieldSet`: replaces a field positionally with a raw value.
    /// Targeting an index past the collection is host-defined; this host
    /// leaves the store unchanged.
    pub fn set_header_field(&mut self, scope: HeaderScope, index: usize, value: &[u8])
        requires
            old(self).wf(),
            value@.len() < NOT_FOUND,
        ensures
            final(self).wf(),
            index < old(self).lines(scope).len() ==> final(self).lines(scope) =~= old(self).lines(
                scope,
            ).update(index as int, value@),
            index >= old(self).lines(scope).len() ==> final(self).lines(scope) == old(self).lines(
                scope,
            ),
            forall|sc: HeaderScope|
                sc != scope ==> #[trigger] final(self).lines(sc) == old(self).lines(sc),
    {
        let owned = vstd::slice::slice_to_vec(value);
        let in_range: bool = match scope {
            HeaderScope::Request => index < self.req.len(),
            HeaderScope::BackendRequest => index < self.bereq.len(),
            HeaderScope::Response => index < self.resp.len(),
            HeaderScope::BackendResponse => index < self.beresp.len(),
        };
        if in_range {
            match scope {
                HeaderScope::Request => self.req[index] = owned,
                HeaderScope::BackendRequest => self.bereq[index] = owned,
                HeaderScope::Response => self.resp[index] = owned,
                HeaderScope::BackendResponse => self.beresp[index] = owned,
            }
            proof {
                assert(final(self).lines(scope) =~= old(self).lines(scope).update(
                    index as int,
                    value@,
                ));
            }
        }
        proof {
            assert forall|sc: HeaderScope| sc != scope implies #[trigger] final(self).lines(sc)
                == old(self).lines(sc) by {
                assert(final(self).lines(sc) =~= old(self).lines(sc));
            }
        }
    }
}

/// Builds the verbatim line "name: value".
pub fn format_header_line(name: &str, value: &[u8]) -> (r: Vec<u8>)
    ensures
        r@ == spec_header_line(name.spec_bytes(), value@),
{
    let mut out: Vec<u8> = Vec::new();
    push_all(&mut out, name.as_bytes());
    out.push(58u8);
    out.push(32u8);
    push_all(&mut out, value);
    proof {
        assert(out@ =~= spec_header_line(name.spec_bytes(), value@));
    }
    out
}

/// The request URL is the field at this fixed index of the request scope.
pub const URL_INDEX: usize = 1;

/// Reads the request URL: request-scope field at the fixed URL index.
pub fn get_url(store: &HeaderStore) -> (r: Vec<u8>)
    requires
        store.wf(),
        URL_INDEX < store.lines(HeaderScope::Request).len(),
    ensures
        r@ == store.lines(HeaderScope::Request)[URL_INDEX as int],
{
    let got = store.get_header_field(HeaderScope::Request, URL_INDEX);
    match got {
        Some(v) => v,
        None => Vec::new(),
    }
}

/// Replaces the request URL positionally.
pub fn set_url(store: &mut HeaderStore, url: &[u8])
    requires
        old(store).wf(),
        url@.len() < NOT_FOUND,
        URL_INDEX < old(store).lines(HeaderScope::Request).len(),
    ensures
        final(store).wf(),
        final(store).lines(HeaderScope::Request) =~= old(store).lines(HeaderScope::Request).update(
            URL_INDEX as int,
            url@,
        ),
        forall|sc: HeaderScope|
            sc != HeaderScope::Request ==> #[trigger] final(store).lines(sc) == old(store).lines(
                sc,
            ),
{
    store.set_header_field(HeaderScope::Request, URL_INDEX, url);
}

/// Finds a request header by name and reads it whole; an absent name gives
/// the empty value, the protocol's graceful sentinel.
pub fn get_req_header(store: &HeaderStore, key: &str) -> (r: Vec<u8>)
    requires
        store.wf(),
    ensures
        (forall|k: int|
            0 <= k < store.lines(HeaderScope::Request).len() ==> !spec_has_name(
                #[trigger] store.lines(HeaderScope::Request)[k],
                key.spec_bytes(),
            )) ==> r@ == Seq::<u8>::empty(),
        (exists|k: int|
            0 <= k < store.lines(HeaderScope::Request).len() && spec_has_name(
                #[trigger] store.lines(HeaderScope::Request)[k],
                key.spec_bytes(),
            )) ==> exists|k: int|
            {
                &&& 0 <= k < store.lines(HeaderScope::Request).len()
                &&& spec_has_name(#[trigger] store.lines(HeaderScope::Request)[k], key.spec_bytes())
                &&& r@ == store.lines(HeaderScope::Request)[k]
                &&& forall|j: int|
                    0 <= j < k ==> !spec_has_name(
                        #[trigger] store.lines(HeaderScope::Request)[j],
                        key.spec_bytes(),
                    )
            },
{
    let index = store.header_find(HeaderScope::Request, key.as_bytes());
    if index == NOT_FOUND {
        let empty: Vec<u8> = Vec::new();
        proof {
            assert(empty@ =~= Seq::<u8>::empty());
        }
        return empty;
    }
    let got = store.get_header_field(HeaderScope::Request, index);
    match got {
        Some(v) => v,
        None => Vec::new(),
    }
}

/// Appends a full request-scope header line verbatim.
pub fn add_full_req_header(store: &mut HeaderStore, header: &[u8])
    requires
        old(store).wf(),
        header@.len() < NOT_FOUND,
        old(store).lines(HeaderScope::Request).len() + 1 < NOT_FOUND,
    ensures
        final(store).wf(),
        final(store).lines(HeaderScope::Request) =~= old(store).lines(HeaderScope::Request).push(
            header@,
        ),
        forall|sc: HeaderScope|
            sc != HeaderScope::Request ==> #[trigger] final(store).lines(sc) == old(store).lines(
                sc,
            ),
{
    store.header_append(HeaderScope::Request, header);
}

/// Appends "name: value" to the request scope.
pub fn add_req_header(store: &mut HeaderStore, name: &str, value: &[u8])
    requires
        old(store).wf(),
        name.spec_bytes().len() + 2 + value@.len() < NOT_FOUND,
        old(store).lines(HeaderScope::Request).len() + 1 < NOT_FOUND,
    ensures
        final(store).wf(),
        final(store).lines(HeaderScope::Request) =~= old(store).lines(HeaderScope::Request).push(
            spec_header_line(name.spec_bytes(), value@),
        ),
        forall|sc: HeaderScope|
            sc != HeaderScope::Request ==> #[trigger] final(store).lines(sc) == old(store).lines(
                sc,
            ),
{
    let line = format_header_line(name, value);
    store.header_append(HeaderScope::Request, line.as_slice());
}

/// Appends a full response-scope header line verbatim.
pub fn add_full_resp_header(store: &mut HeaderStore, header: &[u8])
    requires
        old(store).wf(),
        header@.len() < NOT_FOUND,
        old(store).lines(HeaderScope::Response).len() + 1 < NOT_FOUND,
    ensures
        final(store).wf(),
        final(store).lines(HeaderScope::Response) =~= old(store).lines(HeaderScope::Response).push(
            header@,
        ),
        forall|sc: HeaderScope|
            sc != HeaderScope::Response ==> #[trigger] final(store).lines(sc) == old(store).lines(
                sc,
            ),
{
    store.header_append(HeaderScope::Response, header);
}

/// Appends "name: value" to the response scope.
pub fn add_resp_header(store: &mut HeaderStore, name: &str, value: &[u8])
    requires
        old(store).wf(),
        name.spec_bytes().len() + 2 + value@.len() < NOT_FOUND,
        old(store).lines(HeaderScope::Response).len() + 1 < NOT_FOUND,
    ensures
        final(store).wf(),
        final(store).lines(HeaderScope::Response) =~= old(store).lines(HeaderScope::Response).push(
            spec_header_line(name.spec_bytes(), value@),
        ),
        forall|sc: HeaderScope|
            sc != HeaderScope::Response ==> #[trigger] final(store).lines(sc) == old(store).lines(
                sc,
            ),
{
    let line = format_header_line(name, value);
    store.header_append(HeaderScope::Response, line.as_slice());
}

/// Appending a header and then finding and reading it by name returns
/// exactly the appended text, provided the name was not taken yet: the find
/// lands on the new line and the read hands it back whole.  `found` stands
/// for any result that the find's contract admits on the grown store.
pub proof fn lemma_append_then_find_get(
    lines: Seq<Seq<u8>>,
    name: Seq<u8>,
    value: Seq<u8>,
    found: usize,
)
    requires
        forall|k: int| 0 <= k < lines.len() ==> !spec_has_name(#[trigger] lines[k], name),
        ({
            let pushed = lines.push(spec_header_line(name, value));
            ||| (found == NOT_FOUND && forall|k: int|
                0 <= k < pushed.len() ==> !spec_has_name(#[trigger] pushed[k], name))
            ||| (found != NOT_FOUND && found < pushed.len() && spec_has_name(
                pushed[found as int],
                name,
            ) && forall|k: int| 0 <= k < found ==> !spec_has_name(#[trigger] pushed[k], name))
        }),
    ensures
        found == lines.len(),
        lines.push(spec_header_line(name, value))[found as int] == spec_header_line(name, value),
{
    let line = spec_header_line(name, value);
    let pushed = lines.push(line);
    assert(line.subrange(0, name.len() as int) =~= name);
    assert(line[name.len() as int] == 58u8);
    assert(spec_has_name(line, name));
    assert(pushed[lines.len() as int] == line);
    if found == NOT_FOUND {
        assert(!spec_has_name(pushed[lines.len() as int], name));
        assert(false);
    }
    if found < lines.len() {
        assert(pushed[found as int] == lines[found as int]);
        assert(false);
    }
}

/// The length query of two-phase retrieval is idempotent: without a mutation
/// in between, two reports for the same field agree, because each equals the
/// field's one length.  `r1` and `r2` stand for any two results the
/// retrieval contract admits for a zero-capacity call.
pub proof fn lemma_length_query_idempotent(
    store: HeaderStore,
    scope: HeaderScope,
    index: usize,
    r1: usize,
    r2: usize,
)
    requires
        index < store.lines(scope).len() ==> r1 == store.lines(scope)[index as int].len() && r2
            == store.lines(scope)[index as int].len(),
        index >= store.lines(scope).len() ==> r1 == NOT_FOUND && r2 == NOT_FOUND,
    ensures
        r1 == r2,
{
}

/// A fill whose capacity is the reported length never truncates: the
/// retrieved prefix is the whole field.
pub proof fn lemma_fill_at_reported_length(store: HeaderStore, scope: HeaderScope, index: usize)
    requires
        index < store.lines(scope).len(),
    ensures
        ({
            let line = store.lines(scope)[index as int];
            let cap = line.len();
            line.subrange(
                0,
                if cap < line.len() {
                    cap as int
                } else {
                    line.len() as int
                },
            ) == line
        }),
{
    let line = store.lines(scope)[index as int];
    assert(line.subrange(0, line.len() as int) =~= line);
}

/// Whether the host may reuse the forged result for equivalent future
/// requests.  Chosen once per handled event.
#[derive(Clone, Copy, PartialEq, Eq, Structural, Debug)]
pub enum CachingDecision {
    Uncached,
    Cached,
}

impl CachingDecision {
    /// The decision's operand register value at the boundary.
    pub fn code(self) -> (r: u32)
        ensures
            self is Uncached ==> r == 0,
            self is Cached ==> r == 1,
    {
        match self {
            CachingDecision::Uncached => 0,
            CachingDecision::Cached => 1,
        }
    }
}

/// A synthesized response: status, media type and body, consumed exactly
/// once by the response forge.
pub struct BackendResponse {
    pub status: u16,
    pub content_type: &'static str,
    pub body: Vec<u8>,
}

/// The right to answer one lifecycle event.  The embedder mints one token
/// per event; forging consumes it, so a handler can take one decision and no
/// code of the same event can take another.
pub struct EventToken {
    granted: (),
}

impl EventToken {
    /// Minted by the embedder, and only by it, exactly once per delivered
    /// event; a handler must answer with the token it was handed, never one
    /// of its own, or the one-decision-per-event argument no longer holds.
    pub fn new() -> EventToken {
        EventToken { granted: () }
    }
}

/// The terminal outcome of a handled event: the one forged response and the
/// caching decision, already handed to the host.  Only the forge functions
/// construct one, so holding a `Forged` means the hand-off happened.
pub struct Forged {
    cached: CachingDecision,
    status: u16,
    content_type: &'static str,
    body: Vec<u8>,
}

impl Forged {
    /// The caching decision that was handed to the host.
    pub closed spec fn spec_cached(&self) -> CachingDecision {
        self.cached
    }

    /// The status of the forged response.
    pub closed spec fn spec_status(&self) -> u16 {
        self.status
    }

    /// The media type of the forged response.
    pub closed spec fn spec_content_type(&self) -> &'static str {
        self.content_type
    }

    /// The body of the forged response.
    pub closed spec fn spec_body(&self) -> Seq<u8> {
        self.body@
    }

    /// Reads the caching decision back, for the embedder's cache policy.
    pub fn cached(&self) -> (r: CachingDecision)
        ensures
            r == self.spec_cached(),
    {
        self.cached
    }

    /// Reads the status back.
    pub fn status(&self) -> (r: u16)
        ensures
            r == self.spec_status(),
    {
        self.status
    }

    /// Reads the media type back.
    pub fn content_type(&self) -> (r: &'static str)
        ensures
            r == self.spec_content_type(),
    {
        self.content_type
    }

    /// Reads the body back.
    pub fn body(&self) -> (r: &Vec<u8>)
        ensures
            r@ == self.spec_body(),
    {
        &self.body
    }
}

/// Scope code handed to a producer for the backend-request side.
pub const BEREQ_CODE: u32 = 4;

/// Scope code handed to a producer for the backend-response side.
pub const BERESP_CODE: u32 = 5;

/// The terminal hand-off of a synthesized response to the host.  Consumes
/// the event token: nothing of this event runs after it.
pub fn forge_response(token: EventToken, cached: CachingDecision, resp: BackendResponse) -> (f:
    Forged)
    ensures
        f.spec_cached() == cached,
        f.spec_status() == resp.status,
        f.spec_content_type() == resp.content_type,
        f.spec_body() == resp.body@,
{
    let EventToken { granted: _ } = token;
    Forged { cached, status: resp.status, content_type: resp.content_type, body: resp.body }
}

/// The fast-path response constructor a producer hands back directly.
pub fn backend_response(status: u16, content_type: &'static str, body: &[u8]) -> (r:
    BackendResponse)
    ensures
        r.status == status,
        r.content_type == content_type,
        r.body@ == body@,
{
    BackendResponse { status, content_type, body: vstd::slice::slice_to_vec(body) }
}

/// The stable boundary-facing wrapper: one fixed entry signature that
/// re-dispatches to the guest-chosen producer with the backend scope codes.
pub fn trampoline<F: FnOnce(u32, u32) -> BackendResponse>(func: F) -> (r: BackendResponse)
    requires
        call_requires(func, (BEREQ_CODE, BERESP_CODE)),
    ensures
        call_ensures(func, (BEREQ_CODE, BERESP_CODE), r),
{
    func(BEREQ_CODE, BERESP_CODE)
}

/// Like `trampoline`, for a producer that also receives the fully buffered
/// request body.
pub fn trampoline_post<'a, F: FnOnce(u32, u32, &'a [u8]) -> BackendResponse>(
    func: F,
    data: &'a [u8],
) -> (r: BackendResponse)
    requires
        call_requires(func, (BEREQ_CODE, BERESP_CODE, data)),
    ensures
        call_ensures(func, (BEREQ_CODE, BERESP_CODE, data), r),
{
    func(BEREQ_CODE, BERESP_CODE, data)
}

/// Forge: invokes the producer synchronously through the trampoline and
/// hands its response to the host, terminally for this event.
pub fn forge<F: FnOnce(u32, u32) -> BackendResponse>(
    token: EventToken,
    cached: CachingDecision,
    func: F,
) -> (f: Forged)
    requires
        call_requires(func, (BEREQ_CODE, BERESP_CODE)),
    ensures
        f.spec_cached() == cached,
        exists|r: BackendResponse|
            call_ensures(func, (BEREQ_CODE, BERESP_CODE), r) && f.spec_status() == r.status
                && f.spec_content_type() == r.content_type && f.spec_body() == r.body@,
{
    let resp = trampoline(func);
    forge_response(token, cached, resp)
}

/// Forge with the request body first fully buffered by the host and handed
/// to the producer; no incremental streaming exists for the guest.
pub fn forge_with_post<'a, F: FnOnce(u32, u32, &'a [u8]) -> BackendResponse>(
    token: EventToken,
    cached: CachingDecision,
    func: F,
    data: &'a [u8],
) -> (f: Forged)
    requires
        call_requires(func, (BEREQ_CODE, BERESP_CODE, data)),
    ensures
        f.spec_cached() == cached,
        exists|r: BackendResponse|
            call_ensures(func, (BEREQ_CODE, BERESP_CODE, data), r) && f.spec_status() == r.status
                && f.spec_content_type() == r.content_type && f.spec_body() == r.body@,
{
    let resp = trampoline_post(func, data);
    forge_response(token, cached, resp)
}

/// A guest-side self request is not routed anywhere in this runtime; the
/// fixed success status is its whole contract.
pub fn self_request(data: &str) -> (r: i32)
    ensures
        r == 200,
{
    200
}


/// The event slot of the pre-delivery hook.
pub const ON_DELIVER_SLOT: u32 = 7;

/// The event slot of the primary request handler.
pub const MAIN_HANDLER_SLOT: u32 = 0;

/// The handler registered in a numbered event slot, if any: the last
/// registration silently overwrites earlier ones, as the host does.
pub open spec fn spec_slot_lookup(entries: Seq<(u32, u32)>, key: u32) -> Option<u32>
    decreases entries.len(),
{
    if entries.len() == 0 {
        None
    } else if entries.last().0 == key {
        Some(entries.last().1)
    } else {
        spec_slot_lookup(entries.drop_last(), key)
    }
}

/// The function registered under a name, if any; again the last registration
/// wins.
pub open spec fn spec_named_lookup(entries: Seq<(Vec<u8>, u32)>, name: Seq<u8>) -> Option<u32>
    decreases entries.len(),
{
    if entries.len() == 0 {
        None
    } else if entries.last().0@ == name {
        Some(entries.last().1)
    } else {
        spec_named_lookup(entries.drop_last(), name)
    }
}

/// The registration table: one handler per event slot and the string-named
/// export surface.  The boundary cannot carry first-class function values,
/// so an entry holds a guest-chosen function index that a stable trampoline
/// re-dispatches on.
pub struct CallbackTable {
    pub slots: Vec<(u32, u32)>,
    pub named: Vec<(Vec<u8>, u32)>,
}

impl CallbackTable {
    /// An empty table: nothing registered.
    pub fn new() -> (t: CallbackTable)
        ensures
            forall|k: u32| #[trigger] spec_slot_lookup(t.slots@, k) is None,
            forall|n: Seq<u8>| #[trigger] spec_named_lookup(t.named@, n) is None,
    {
        CallbackTable { slots: Vec::new(), named: Vec::new() }
    }

    /// `RegisterCallback`: one handler per event slot; re-registration
    /// silently overwrites, other slots stand as they were.
    pub fn register_callback(&mut self, idx: u32, func_id: u32)
        ensures
            spec_slot_lookup(final(self).slots@, idx) == Some(func_id),
            forall|k: u32|
                k != idx ==> #[trigger] spec_slot_lookup(final(self).slots@, k) == spec_slot_lookup(
                    old(self).slots@,
                    k,
                ),
            final(self).named == old(self).named,
    {
        self.slots.push((idx, func_id));
        proof {
            assert(self.slots@.drop_last() =~= old(self).slots@);
        }
    }

    /// `RegisterNamedFunction`: binds a name of the ad hoc RPC surface to a
    /// guest function; the last binding for a name wins.
    pub fn register_function(&mut self, name: &str, func_id: u32)
        ensures
            spec_named_lookup(final(self).named@, name.spec_bytes()) == Some(func_id),
            forall|n: Seq<u8>|
                n != name.spec_bytes() ==> #[trigger] spec_named_lookup(final(self).named@, n)
                    == spec_named_lookup(old(self).named@, n),
            final(self).slots == old(self).slots,
    {
        let owned = vstd::slice::slice_to_vec(name.as_bytes());
        self.named.push((owned, func_id));
        proof {
            assert(self.named@.drop_last() =~= old(self).named@);
        }
    }

    /// Registers the pre-delivery hook in its fixed slot.
    pub fn set_on_deliver(&mut self, func_id: u32)
        ensures
            spec_slot_lookup(final(self).slots@, ON_DELIVER_SLOT) == Some(func_id),
            forall|k: u32|
                k != ON_DELIVER_SLOT ==> #[trigger] spec_slot_lookup(final(self).slots@, k)
                    == spec_slot_lookup(old(self).slots@, k),
            final(self).named == old(self).named,
    {
        self.register_callback(ON_DELIVER_SLOT, func_id);
    }

    /// `wait_for_requests`: registers the primary handler; from here on the
    /// guest parks and the embedder delivers events one at a time, each at a
    /// fresh entry through the registered handler.
    pub fn wait_for_requests(&mut self, func_id: u32)
        ensures
            spec_slot_lookup(final(self).slots@, MAIN_HANDLER_SLOT) == Some(func_id),
            forall|k: u32|
                k != MAIN_HANDLER_SLOT ==> #[trigger] spec_slot_lookup(final(self).slots@, k)
                    == spec_slot_lookup(old(self).slots@, k),
            final(self).named == old(self).named,
    {
        self.register_callback(MAIN_HANDLER_SLOT, func_id);
    }

    /// Looks an event slot up, newest registration first.
    pub fn slot_lookup(&self, idx: u32) -> (r: Option<u32>)
        ensures
            r == spec_slot_lookup(self.slots@, idx),
    {
        let mut i: usize = self.slots.len();
        proof {
            assert(self.slots@.subrange(0, self.slots@.len() as int) =~= self.slots@);
        }
        while i > 0
            invariant
                i <= self.slots@.len(),
                spec_slot_lookup(self.slots@, idx) == spec_slot_lookup(
                    self.slots@.subrange(0, i as int),
                    idx,
                ),
            decreases i,
        {
            i = i - 1;
            let entry = self.slots[i];
            proof {
                assert(self.slots@.subrange(0, i + 1).drop_last() =~= self.slots@.subrange(
                    0,
                    i as int,
                ));
                assert(self.slots@.subrange(0, i + 1).last() == self.slots@[i as int]);
            }
            if entry.0 == idx {
                return Some(entry.1);
            }
        }
        proof {
            assert(self.slots@.subrange(0, 0) =~= Seq::<(u32, u32)>::empty());
        }
        None
    }

    /// Looks a named export up, newest registration first.
    pub fn named_lookup(&self, name: &[u8]) -> (r: Option<u32>)
        ensures
            r == spec_named_lookup(self.named@, name@),
    {
        let mut i: usize = self.named.len();
        proof {
            assert(self.named@.subrange(0, self.named@.len() as int) =~= self.named@);
        }
        while i > 0
            invariant
                i <= self.named@.len(),
                spec_named_lookup(self.named@, name@) == spec_named_lookup(
                    self.named@.subrange(0, i as int),
                    name@,
                ),
            decreases i,
        {
            i = i - 1;
            proof {
                assert(self.named@.subrange(0, i + 1).drop_last() =~= self.named@.subrange(
                    0,
                    i as int,
                ));
                assert(self.named@.subrange(0, i + 1).last() == self.named@[i as int]);
            }
            let entry_name = &self.named[i].0;
            if bytes_eq(entry_name.as_slice(), name) {
                return Some(self.named[i].1);
            }
        }
        proof {
            assert(self.named@.subrange(0, 0) =~= Seq::<(Vec<u8>, u32)>::empty());
        }
        None
    }
}

} // verus!
