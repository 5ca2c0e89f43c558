//! Query and body parameters of list, watch, create, patch and delete calls, and
//! the patch payloads.
use vstd::prelude::*;
use crate::error::ApiError;
use crate::json::{
    decimal_of, decimal_text, join_members, json_object, json_patch_bytes, json_patch_to_vec, json_string, json_string_of,
    json_to_vec,
    texts,
};
use url::form_urlencoded::Serializer;

verus! {

/// The length of a text in bytes, as UTF-8 encodes it.
pub open spec fn byte_len(s: Seq<char>) -> nat {
    vstd::utf8::encode_utf8(s).len()
}

/// The longest field manager name that is accepted, in bytes.
pub const MAX_FIELD_MANAGER_LEN: usize = 128;

/// The watch timeout, in seconds, from which on a list or watch call is refused.
pub const WATCH_TIMEOUT_CEILING: u32 = 295;

/// A field manager name that is too long.
pub open spec fn field_manager_too_long(field_manager: Option<String>) -> bool {
    field_manager is Some && byte_len(field_manager->0@) > MAX_FIELD_MANAGER_LEN
}

/// Whether the field manager name, if any, is too long.
fn check_field_manager(field_manager: &Option<String>) -> (r: bool)
    ensures
        r == field_manager_too_long(*field_manager),
{
    match field_manager {
        Some(m) => m.as_str().as_bytes().len() > MAX_FIELD_MANAGER_LEN,
        None => false,
    }
}

/// Common query parameters used in watch/list/delete calls on collections
#[derive(Clone, Debug)]
pub struct ListParams {
    /// A selector to restrict the list of returned objects by their labels.
    ///
    /// Defaults to everything if `None`.
    pub label_selector: Option<String>,
    /// A selector to restrict the list of returned objects by their fields.
    ///
    /// Defaults to everything if `None`.
    pub field_selector: Option<String>,
    /// Timeout for the list/watch call, in seconds; below 295.
    pub timeout: Option<u32>,
    /// Enables watch events with type "BOOKMARK".
    pub bookmarks: bool,
    /// Limit the number of results.
    pub limit: Option<u32>,
    /// Fetch a second page of results.
    pub continue_token: Option<String>,
}

impl Default for ListParams {
    fn default() -> (r: Self)
        ensures
            r.label_selector is None,
            r.field_selector is None,
            r.timeout is None,
            r.bookmarks,
            r.limit is None,
            r.continue_token is None,
    {
        ListParams {
            // bookmarks stable since 1.17, and backwards compatible
            bookmarks: true,
            label_selector: None,
            field_selector: None,
            timeout: None,
            limit: None,
            continue_token: None,
        }
    }
}

impl ListParams {
    /// The parameters are acceptable: a timeout, if set, is below the ceiling.
    pub open spec fn valid(&self) -> bool {
        self.timeout is None || self.timeout->0 < WATCH_TIMEOUT_CEILING
    }

    /// Checks the parameters before a call.
    pub fn validate(&self) -> (r: Result<(), ApiError>)
        ensures
            r is Ok <==> self.valid(),
            !self.valid() ==> (r matches Err(ApiError::RequestValidation(m)) && m@
                == "ListParams::timeout must be < 295s"@),
    {
        if let Some(to) = &self.timeout {
            if *to >= WATCH_TIMEOUT_CEILING {
                return Err(
                    ApiError::RequestValidation(
                        String::from_str("ListParams::timeout must be < 295s"),
                    ),
                );
            }
        }
        Ok(())
    }

    /// Configure the timeout for list/watch calls
    ///
    /// This limits the duration of the call, regardless of any activity or inactivity.
    pub fn timeout(self, timeout_secs: u32) -> (r: Self)
        ensures
            r == (ListParams { timeout: Some(timeout_secs), ..self }),
    {
        let mut lp = self;
        lp.timeout = Some(timeout_secs);
        lp
    }

    /// Configure the selector to restrict the list of returned objects by their fields.
    pub fn fields(self, field_selector: &str) -> (r: Self)
        ensures
            r.field_selector is Some,
            r.field_selector->0@ == field_selector@,
            r == (ListParams { field_selector: r.field_selector, ..self }),
    {
        let mut lp = self;
        lp.field_selector = Some(String::from_str(field_selector));
        lp
    }

    /// Configure the selector to restrict the list of returned objects by their labels.
    pub fn labels(self, label_selector: &str) -> (r: Self)
        ensures
            r.label_selector is Some,
            r.label_selector->0@ == label_selector@,
            r == (ListParams { label_selector: r.label_selector, ..self }),
    {
        let mut lp = self;
        lp.label_selector = Some(String::from_str(label_selector));
        lp
    }

    /// Disables watch bookmarks to simplify watch handling
    pub fn disable_bookmarks(self) -> (r: Self)
        ensures
            r == (ListParams { bookmarks: false, ..self }),
    {
        let mut lp = self;
        lp.bookmarks = false;
        lp
    }

    /// Sets a result limit.
    pub fn limit(self, limit: u32) -> (r: Self)
        ensures
            r == (ListParams { limit: Some(limit), ..self }),
    {
        let mut lp = self;
        lp.limit = Some(limit);
        lp
    }

    /// Sets a continue token.
    pub fn continue_token(self, token: &str) -> (r: Self)
        ensures
            r.continue_token is Some,
            r.continue_token->0@ == token@,
            r == (ListParams { continue_token: r.continue_token, ..self }),
    {
        let mut lp = self;
        lp.continue_token = Some(String::from_str(token));
        lp
    }
}

/// Common query parameters for put/post calls
#[derive(Clone, Debug)]
pub struct PostParams {
    /// Whether to run this as a dry run
    pub dry_run: bool,
    /// fieldManager is a name of the actor that is making changes
    pub field_manager: Option<String>,
}

impl Default for PostParams {
    fn default() -> (r: Self)
        ensures
            !r.dry_run,
            r.field_manager is None,
    {
        PostParams { dry_run: false, field_manager: None }
    }
}

impl PostParams {
    /// Checks the parameters before a call: a field manager name must not be
    /// longer than 128 bytes.
    pub fn validate(&self) -> (r: Result<(), ApiError>)
        ensures
            r is Ok <==> !field_manager_too_long(self.field_manager),
            field_manager_too_long(self.field_manager) ==> (r matches Err(
                ApiError::RequestValidation(m),
            ) && m@ == "Failed to validate PostParams::field_manager!"@),
    {
        if check_field_manager(&self.field_manager) {
            return Err(
                ApiError::RequestValidation(
                    String::from_str("Failed to validate PostParams::field_manager!"),
                ),
            );
        }
        Ok(())
    }
}

/// A JSON patch document (RFC 6902), carried as it is.
#[verifier::external_type_specification]
#[verifier::external_body]
pub struct ExJsonPatch(json_patch::Patch);

/// One operation of a JSON patch document, carried as it is.
#[verifier::external_type_specification]
#[verifier::external_body]
pub struct ExJsonPatchOperation(json_patch::PatchOperation);

/// Describes changes that should be applied to a resource
///
/// Takes arbitrary serializable data for all strategies except `Json`.
#[derive(Debug)]
pub enum ResourcePatch<T> {
    /// Server side apply
    Apply(T),
    /// JSON patch
    Json(json_patch::Patch),
    /// JSON Merge patch
    Merge(T),
    /// Strategic JSON Merge patch
    Strategic(T),
}

/// The MIME type that a patch is sent with.
pub open spec fn patch_content_type<T>(p: ResourcePatch<T>) -> Seq<char> {
    match p {
        ResourcePatch::Apply(_) => "application/apply-patch+yaml"@,
        ResourcePatch::Json(_) => "application/json-patch+json"@,
        ResourcePatch::Merge(_) => "application/merge-patch+json"@,
        ResourcePatch::Strategic(_) => "application/strategic-merge-patch+json"@,
    }
}

impl<T> ResourcePatch<T> {
    /// Whether this is a server-side apply patch.
    pub fn is_apply(&self) -> (r: bool)
        ensures
            r == (*self is Apply),
    {
        match self {
            ResourcePatch::Apply(_) => true,
            _ => false,
        }
    }

    /// The MIME type of the request body.
    pub fn content_type(&self) -> (r: &'static str)
        ensures
            r@ == patch_content_type(*self),
    {
        match self {
            ResourcePatch::Apply(_) => "application/apply-patch+yaml",
            ResourcePatch::Json(_) => "application/json-patch+json",
            ResourcePatch::Merge(_) => "application/merge-patch+json",
            ResourcePatch::Strategic(_) => "application/strategic-merge-patch+json",
        }
    }
}

/// The outcome of an encoding as the library reports it: the bytes, or the
/// encoder's failure as a serialization error.
pub fn encoded_body(res: Result<Vec<u8>, serde_json::Error>) -> (r: Result<Vec<u8>, ApiError>)
    ensures
        res is Ok ==> r is Ok && r->Ok_0@ == res->Ok_0@,
        res is Err ==> (r matches Err(ApiError::SerdeError(e)) && e == res->Err_0),
{
    match res {
        Ok(b) => Ok(b),
        Err(e) => Err(ApiError::SerdeError(e)),
    }
}

impl<T: serde::Serialize> ResourcePatch<T> {
    /// The request body: the JSON encoding of the payload, or of the operations
    /// for a JSON patch. An encoder failure is reported, never a panic; the
    /// operations of a JSON patch always encode.
    pub fn serialize(&self) -> (r: Result<Vec<u8>, ApiError>)
        ensures
            *self is Json ==> r is Ok && r->Ok_0@ == json_patch_bytes(self->Json_0),
            r is Err ==> r->Err_0 is SerdeError,
    {
        let res = match self {
            ResourcePatch::Apply(p) => json_to_vec(p),
            ResourcePatch::Json(p) => json_patch_to_vec(p),
            ResourcePatch::Strategic(p) => json_to_vec(p),
            ResourcePatch::Merge(p) => json_to_vec(p),
        };
        encoded_body(res)
    }
}

/// A form-urlencoded query being written by url's serializer. Its contents are
/// the name/value pairs it has been handed, in order.
#[verifier::external_body]
pub struct QueryWriter {
    inner: Serializer<'static, String>,
}

/// The name/value pairs that a query writer has been handed, in order.
pub uninterp spec fn query_pairs(q: QueryWriter) -> Seq<(Seq<char>, Seq<char>)>;

/// The digit of a number below sixteen in upper-case hexadecimal.
pub open spec fn hex_upper(d: nat) -> char {
    if d < 10 {
        ((d + 48) as u8) as char
    } else {
        ((d + 55) as u8) as char
    }
}

/// A byte that form encoding writes as it is: ASCII letters and digits, `*`,
/// `-`, `.` and `_`.
pub open spec fn form_byte_unchanged(b: u8) -> bool {
    ||| b == 0x2A
    ||| b == 0x2D
    ||| b == 0x2E
    ||| b == 0x5F
    ||| 0x30 <= b <= 0x39
    ||| 0x41 <= b <= 0x5A
    ||| 0x61 <= b <= 0x7A
}

/// The form encoding of one byte: kept, `+` for a space, else `%XX`.
pub open spec fn form_encode_byte(b: u8) -> Seq<char> {
    if form_byte_unchanged(b) {
        seq![b as char]
    } else if b == 0x20 {
        seq!['+']
    } else {
        seq!['%', hex_upper((b / 16) as nat), hex_upper((b % 16) as nat)]
    }
}

/// The form encoding of a sequence of bytes, byte by byte.
pub open spec fn form_encode_bytes(bs: Seq<u8>) -> Seq<char>
    decreases bs.len(),
{
    if bs.len() == 0 {
        Seq::empty()
    } else {
        form_encode_bytes(bs.drop_last()) + form_encode_byte(bs.last())
    }
}

/// The form encoding of a text: of the bytes that UTF-8 gives it.
pub open spec fn form_encode_text(s: Seq<char>) -> Seq<char> {
    form_encode_bytes(vstd::utf8::encode_utf8(s))
}

/// One encoded name/value pair, `name=value`.
pub open spec fn form_encode_pair(p: (Seq<char>, Seq<char>)) -> Seq<char> {
    form_encode_text(p.0) + seq!['='] + form_encode_text(p.1)
}

/// The `application/x-www-form-urlencoded` text of a sequence of pairs: the
/// encoded pairs, separated by `&`.
pub open spec fn form_encoded(pairs: Seq<(Seq<char>, Seq<char>)>) -> Seq<char>
    decreases pairs.len(),
{
    if pairs.len() == 0 {
        Seq::empty()
    } else if pairs.len() == 1 {
        form_encode_pair(pairs[0])
    } else {
        form_encoded(pairs.drop_last()) + seq!['&'] + form_encode_pair(pairs.last())
    }
}

impl QueryWriter {
    /// Relies on form_urlencoded's Serializer::new on an empty string: a query
    /// without pairs.
    #[verifier::external_body]
    pub fn new() -> (r: Self)
        ensures
            query_pairs(r) == Seq::<(Seq<char>, Seq<char>)>::empty(),
    {
        QueryWriter { inner: Serializer::new(String::new()) }
    }

    /// Relies on form_urlencoded's Serializer::append_pair: the pair is encoded
    /// and written after those already there.
    #[verifier::external_body]
    pub fn append_pair(&mut self, name: &str, value: &str)
        ensures
            query_pairs(*final(self)) == query_pairs(*old(self)).push((name@, value@)),
    {
        self.inner.append_pair(name, value);
    }

    /// Relies on form_urlencoded's Serializer::finish on a serializer started on
    /// an empty string without an encoding override: each pair's name and value
    /// encoded byte by byte, joined by `=`, the pairs separated by `&`.
    #[verifier::external_body]
    pub fn finish(self) -> (r: String)
        ensures
            r@ == form_encoded(query_pairs(self)),
    {
        let mut q = self;
        q.inner.finish()
    }
}

/// Common query parameters for patch calls
#[derive(Clone, Debug)]
pub struct PatchParams {
    /// Whether to run this as a dry run
    pub dry_run: bool,
    /// force Apply requests. Applicable only to `ResourcePatch::Apply`.
    pub force: bool,
    /// fieldManager is a name of the actor that is making changes. Required for `ResourcePatch::Apply`
    /// optional for everything else.
    pub field_manager: Option<String>,
}

impl Default for PatchParams {
    fn default() -> (r: Self)
        ensures
            !r.dry_run,
            !r.force,
            r.field_manager is None,
    {
        PatchParams { dry_run: false, force: false, field_manager: None }
    }
}

/// The query pairs that patch parameters add, in order: `dryRun=All` on a dry
/// run, `force=true` when forced, and the field manager if one is named.
pub open spec fn patch_query_pairs(pp: PatchParams) -> Seq<(Seq<char>, Seq<char>)> {
    let a: Seq<(Seq<char>, Seq<char>)> = if pp.dry_run {
        seq![("dryRun"@, "All"@)]
    } else {
        Seq::empty()
    };
    let b: Seq<(Seq<char>, Seq<char>)> = if pp.force {
        seq![("force"@, "true"@)]
    } else {
        Seq::empty()
    };
    let c: Seq<(Seq<char>, Seq<char>)> = match pp.field_manager {
        Some(m) => seq![("fieldManager"@, m@)],
        None => Seq::empty(),
    };
    a + b + c
}

impl PatchParams {
    /// Checks the parameters before a patch call: a field manager name must not
    /// be longer than 128 bytes. Forcing a patch other than apply has no effect
    /// on the server and is no error.
    pub fn validate<P>(&self, patch: &ResourcePatch<P>) -> (r: Result<(), ApiError>)
        ensures
            r is Ok <==> !field_manager_too_long(self.field_manager),
            field_manager_too_long(self.field_manager) ==> (r matches Err(
                ApiError::RequestValidation(m),
            ) && m@ == "Failed to validate PatchParams::field_manager!"@),
    {
        if check_field_manager(&self.field_manager) {
            return Err(
                ApiError::RequestValidation(
                    String::from_str("Failed to validate PatchParams::field_manager!"),
                ),
            );
        }
        Ok(())
    }

    /// Whether these parameters force a patch that is not an apply patch: the
    /// server ignores the flag there, which is worth a warning but no error.
    pub fn force_is_ignored<P>(&self, patch: &ResourcePatch<P>) -> (r: bool)
        ensures
            r == (self.force && !(*patch is Apply)),
    {
        self.force && !patch.is_apply()
    }

    /// Adds the query pairs of these parameters to a query.
    pub fn populate_qp(&self, qp: &mut QueryWriter)
        ensures
            query_pairs(*final(qp)) == query_pairs(*old(qp)) + patch_query_pairs(*self),
    {
        let ghost start = query_pairs(*qp);
        if self.dry_run {
            qp.append_pair("dryRun", "All");
        }
        if self.force {
            qp.append_pair("force", "true");
        }
        if let Some(field_manager) = &self.field_manager {
            qp.append_pair("fieldManager", field_manager.as_str());
        }
        assert(query_pairs(*qp) =~= start + patch_query_pairs(*self));
    }

    /// The query string of a patch call with these parameters.
    pub fn query_string(&self) -> (r: String)
        ensures
            r@ == form_encoded(patch_query_pairs(*self)),
    {
        let mut qp = QueryWriter::new();
        self.populate_qp(&mut qp);
        assert(query_pairs(qp) =~= patch_query_pairs(*self));
        qp.finish()
    }

    /// Construct `PatchParams` for server-side apply
    pub fn apply(manager: &str) -> (r: Self)
        ensures
            !r.dry_run,
            !r.force,
            r.field_manager is Some,
            r.field_manager->0@ == manager@,
    {
        PatchParams { dry_run: false, force: false, field_manager: Some(String::from_str(manager)) }
    }

    /// Force the result through on conflicts
    ///
    /// NB: Force is a concept restricted to the server-side `ResourcePatch::Apply`.
    pub fn force(self) -> (r: Self)
        ensures
            r == (PatchParams { force: true, ..self }),
    {
        let mut pp = self;
        pp.force = true;
        pp
    }

    /// Perform a dryRun only
    pub fn dry_run(self) -> (r: Self)
        ensures
            r == (PatchParams { dry_run: true, ..self }),
    {
        let mut pp = self;
        pp.dry_run = true;
        pp
    }
}

/// Preconditions must be fulfilled before an operation (update, delete, etc.) is carried out.
#[derive(Clone, Debug, Default)]
pub struct Preconditions {
    /// Specifies the target ResourceVersion
    pub resource_version: Option<String>,
    /// Specifies the target UID
    pub uid: Option<String>,
}

/// Propagation policy when deleting single objects
#[derive(Clone, Copy, Debug, PartialEq, Eq)]
pub enum PropagationPolicy {
    /// Orphan dependents
    Orphan,
    /// Allow the garbage collector to delete the dependents in the background
    Background,
    /// A cascading policy that deletes all dependents in the foreground
    Foreground,
}

/// Common query parameters for delete calls
#[derive(Clone, Debug)]
pub struct DeleteParams {
    /// When present, indicates that modifications should not be persisted.
    pub dry_run: bool,
    /// The duration in seconds before the object should be deleted.
    pub grace_period_seconds: Option<u32>,
    /// Whether or how garbage collection is performed.
    pub propagation_policy: Option<PropagationPolicy>,
    /// Conditions that must be fulfilled before a deletion is carried out
    pub preconditions: Option<Preconditions>,
}

impl Default for DeleteParams {
    fn default() -> (r: Self)
        ensures
            !r.dry_run,
            r.grace_period_seconds is None,
            r.propagation_policy is None,
            r.preconditions is None,
    {
        DeleteParams {
            dry_run: false,
            grace_period_seconds: None,
            propagation_policy: None,
            preconditions: None,
        }
    }
}

/// The text of a JSON object with the given members, in order.
pub open spec fn json_object_of(members: Seq<Seq<char>>) -> Seq<char> {
    seq!['{'] + join_members(members) + seq!['}']
}

/// The wire name of a propagation policy.
pub open spec fn policy_name(p: PropagationPolicy) -> Seq<char> {
    match p {
        PropagationPolicy::Orphan => "Orphan"@,
        PropagationPolicy::Background => "Background"@,
        PropagationPolicy::Foreground => "Foreground"@,
    }
}

/// The members of the JSON body of preconditions: each one that is set, in order.
pub open spec fn precondition_members(p: Preconditions) -> Seq<Seq<char>> {
    let a: Seq<Seq<char>> = match p.resource_version {
        Some(rv) => seq!["\"resourceVersion\":"@ + json_string_of(rv@)],
        None => Seq::empty(),
    };
    let b: Seq<Seq<char>> = match p.uid {
        Some(u) => seq!["\"uid\":"@ + json_string_of(u@)],
        None => Seq::empty(),
    };
    a + b
}

/// The members of the JSON body of a delete call: each parameter that is set, in
/// order. A dry run is the one-element array `["All"]`, never a boolean.
pub open spec fn delete_members(dp: DeleteParams) -> Seq<Seq<char>> {
    let a: Seq<Seq<char>> = if dp.dry_run {
        seq!["\"dryRun\":[\"All\"]"@]
    } else {
        Seq::empty()
    };
    let b: Seq<Seq<char>> = match dp.grace_period_seconds {
        Some(g) => seq!["\"gracePeriodSeconds\":"@ + decimal_of(g as nat)],
        None => Seq::empty(),
    };
    let c: Seq<Seq<char>> = match dp.propagation_policy {
        Some(p) => seq!["\"propagationPolicy\":\""@ + policy_name(p) + "\""@],
        None => Seq::empty(),
    };
    let d: Seq<Seq<char>> = match dp.preconditions {
        Some(pc) => seq!["\"preconditions\":"@ + json_object_of(precondition_members(pc))],
        None => Seq::empty(),
    };
    a + b + c + d
}

impl PropagationPolicy {
    /// The wire name of the policy.
    pub fn name(&self) -> (r: &'static str)
        ensures
            r@ == policy_name(*self),
    {
        match self {
            PropagationPolicy::Orphan => "Orphan",
            PropagationPolicy::Background => "Background",
            PropagationPolicy::Foreground => "Foreground",
        }
    }
}

impl Preconditions {
    /// The JSON body of the preconditions.
    pub fn to_json(&self) -> (r: Result<String, ApiError>)
        ensures
            r is Ok,
            r->Ok_0@ == json_object_of(precondition_members(*self)),
    {
        let mut members: Vec<String> = Vec::new();
        let ghost mut expected: Seq<Seq<char>> = Seq::empty();
        if let Some(rv) = &self.resource_version {
            let text = match json_string(rv.as_str()) {
                Ok(t) => t,
                Err(e) => return Err(ApiError::SerdeError(e)),
            };
            members.push(String::from_str("\"resourceVersion\":").concat(text.as_str()));
            proof {
                reveal_strlit("\"resourceVersion\":");
                expected = expected.push("\"resourceVersion\":"@ + json_string_of(rv@));
            }
        }
        assert(texts(members@) =~= expected);
        if let Some(uid) = &self.uid {
            let text = match json_string(uid.as_str()) {
                Ok(t) => t,
                Err(e) => return Err(ApiError::SerdeError(e)),
            };
            let ghost before = members@;
            members.push(String::from_str("\"uid\":").concat(text.as_str()));
            proof {
                reveal_strlit("\"uid\":");
                assert(texts(members@) =~= texts(before).push("\"uid\":"@ + json_string_of(uid@)));
                expected = expected.push("\"uid\":"@ + json_string_of(uid@));
            }
        }
        assert(texts(members@) =~= precondition_members(*self));
        Ok(json_object(&members))
    }
}

impl DeleteParams {
    /// The JSON body of a delete call: an object of the parameters that are set,
    /// `{}` when none is.
    pub fn to_json(&self) -> (r: Result<String, ApiError>)
        ensures
            r is Ok,
            r->Ok_0@ == json_object_of(delete_members(*self)),
    {
        let mut members: Vec<String> = Vec::new();
        let ghost mut expected: Seq<Seq<char>> = Seq::empty();
        if self.dry_run {
            members.push(String::from_str("\"dryRun\":[\"All\"]"));
            proof {
                expected = expected.push("\"dryRun\":[\"All\"]"@);
            }
        }
        assert(texts(members@) =~= expected);
        if let Some(g) = self.grace_period_seconds {
            let ghost before = members@;
            members.push(String::from_str("\"gracePeriodSeconds\":").concat(decimal_text(g).as_str()));
            proof {
                reveal_strlit("\"gracePeriodSeconds\":");
                let m = "\"gracePeriodSeconds\":"@ + decimal_of(g as nat);
                assert(texts(members@) =~= texts(before).push(m));
                expected = expected.push(m);
            }
        }
        assert(texts(members@) =~= expected);
        if let Some(p) = &self.propagation_policy {
            let ghost before = members@;
            members.push(
                String::from_str("\"propagationPolicy\":\"").concat(p.name()).concat("\""),
            );
            proof {
                reveal_strlit("\"propagationPolicy\":\"");
                reveal_strlit("\"");
                let m = "\"propagationPolicy\":\""@ + policy_name(*p) + "\""@;
                assert(texts(members@) =~= texts(before).push(m));
                expected = expected.push(m);
            }
        }
        assert(texts(members@) =~= expected);
        if let Some(pc) = &self.preconditions {
            let body = pc.to_json()?;
            let ghost before = members@;
            members.push(String::from_str("\"preconditions\":").concat(body.as_str()));
            proof {
                reveal_strlit("\"preconditions\":");
                let m = "\"preconditions\":"@ + json_object_of(precondition_members(*pc));
                assert(texts(members@) =~= texts(before).push(m));
                expected = expected.push(m);
            }
        }
        assert(texts(members@) =~= delete_members(*self));
        Ok(json_object(&members))
    }
}

} // verus!
