//! The three registry queries — identity resolution, state lookup and
//! single-property read — as decisions over the plain values the native
//! calls produce. The surrounding program performs the native calls in
//! order and passes their outcomes in; every translation, validation
//! and dispatch decision is made and proved here.

use vstd::prelude::*;
use vstd::string::StrSliceExecFns;
use crate::error::decimal_digits;
use crate::error::SMFError;
use crate::error::SMFErrorKind;
use crate::handle::SCFHandle;
use crate::value::AStringProp;
use crate::value::PropTypeTag;
use crate::value::PropertyValue;

verus! {

/// Whether `s` holds an embedded nul character, which no string passed
/// to the native layer may contain.
pub open spec fn contains_nul(s: Seq<char>) -> bool {
    exists|i: int| 0 <= i < s.len() && s[i] == '\0'
}

/// Checks a caller-supplied string for an embedded nul byte before it
/// is handed to the native layer; such a string is rejected with an
/// invalid-argument error and no native call is made for it.
pub fn check_no_nul(s: &str) -> (r: Result<(), SMFError>)
    ensures
        r is Ok <==> !contains_nul(s@),
        r matches Err(e) ==> e.kind == SMFErrorKind::InvalidArgument && e.smf_error@
            == "invalid string: nul byte found in provided data"@,
{
    let n = s.unicode_len();
    let mut i: usize = 0;
    while i < n
        invariant
            i <= n,
            n == s@.len(),
            forall|j: int| 0 <= j < i ==> s@[j] != '\0',
        decreases n - i,
    {
        if s.get_char(i) == '\0' {
            return Err(SMFError::invalid_argument());
        }
        i += 1;
    }
    Ok(())
}

/// The kind of error an identity resolution ends in, given the
/// registry's reported maximum FMRI length, the bind outcome, and the
/// lookup's return value; `None` means the resolution succeeds. The
/// minus-one sentinel of the lookup — and nothing else — yields the
/// not-associated kind; every other failure carries the registry kind.
pub open spec fn resolve_error_kind(limit: i64, bind_ok: bool, need: i64) -> Option<
    SMFErrorKind,
> {
    if limit <= 0 {
        Some(SMFErrorKind::Registry)
    } else if !bind_ok {
        Some(SMFErrorKind::Registry)
    } else if need == -1 {
        Some(SMFErrorKind::NotAssociated)
    } else {
        None
    }
}

/// Resolves the FMRI of the service instance that owns the calling
/// process, deciding over the outcomes of the native sequence the
/// caller ran: `limit` is the registry's maximum-FMRI-length limit
/// (non-positive means the limit query failed, so no buffer is ever
/// sized from it), `bind_ok` reports the connection create-and-bind,
/// `need` is the lookup's return value — the needed length, or the
/// minus-one sentinel meaning the process has no owning instance, a
/// condition that does not set the registry's failure state and so is
/// not routed through the generic translator — and `buffer` is the
/// FMRI the lookup wrote. `registry_failure` is the failure-state slot
/// read at the failing call. The connection is released on every path;
/// the caller of a failed stage passes any values for the later ones.
pub fn my_fmri(
    limit: i64,
    bind_ok: bool,
    registry_failure: String,
    need: i64,
    buffer: String,
) -> (r: Result<String, SMFError>)
    ensures
        r is Err <==> resolve_error_kind(limit, bind_ok, need) is Some,
        r matches Err(e) ==> Some(e.kind) == resolve_error_kind(limit, bind_ok, need),
        limit <= 0 ==> (r matches Err(e) && e.kind == SMFErrorKind::Registry
            && e.smf_error@ == registry_failure@),
        limit > 0 && !bind_ok ==> (r matches Err(e) && e.kind == SMFErrorKind::Registry
            && e.smf_error@ == registry_failure@),
        limit > 0 && bind_ok && need == -1 ==> (r matches Err(e)
            && e.kind == SMFErrorKind::NotAssociated && e.smf_error@
            == "process not associated with a service"@),
        limit > 0 && bind_ok && need != -1 ==> (r matches Ok(fmri) && fmri@ == buffer@),
{
    if limit <= 0 {
        return Err(SMFError::new(registry_failure));
    }
    let mut hdl = match SCFHandle::open(bind_ok, registry_failure) {
        Ok(h) => h,
        Err(e) => {
            return Err(e);
        },
    };
    let r = if need == -1 {
        Err(SMFError::not_associated())
    } else {
        Ok(buffer)
    };
    hdl.close();
    r
}

/// The kind of error a state lookup ends in, given the queried FMRI
/// and whether the native lookup found a state; `None` means the
/// lookup succeeds. No input yields the not-associated kind.
pub open spec fn state_error_kind(fmri: Seq<char>, found: bool) -> Option<SMFErrorKind> {
    if contains_nul(fmri) {
        Some(SMFErrorKind::InvalidArgument)
    } else if !found {
        Some(SMFErrorKind::Registry)
    } else {
        None
    }
}

/// Looks up the current state of the service instance named by `fmri`.
/// An FMRI holding an embedded nul is rejected with an invalid-argument
/// error before any native call, so its result does not depend on
/// `lookup` at all. Otherwise `lookup` is what the native state query
/// returned: the state string, passed through verbatim without
/// validating it against the expected vocabulary (the registry is
/// authoritative), or nothing, translated into a registry error wrapping
/// `registry_failure`, the failure-state slot read at the failing call.
pub fn get_state(fmri: &str, lookup: Option<String>, registry_failure: String) -> (r: Result<
    String,
    SMFError,
>)
    ensures
        r is Err <==> state_error_kind(fmri@, lookup is Some) is Some,
        r matches Err(e) ==> Some(e.kind) == state_error_kind(fmri@, lookup is Some),
        contains_nul(fmri@) ==> (r matches Err(e) && e.kind == SMFErrorKind::InvalidArgument
            && e.smf_error@ == "invalid string: nul byte found in provided data"@),
        !contains_nul(fmri@) && lookup is None ==> (r matches Err(e)
            && e.kind == SMFErrorKind::Registry && e.smf_error@ == registry_failure@),
        !contains_nul(fmri@) ==> (lookup matches Some(state) ==> (r matches Ok(s)
            && s@ == state@)),
{
    match check_no_nul(fmri) {
        Ok(()) => (),
        Err(e) => {
            return Err(e);
        },
    }
    match lookup {
        Some(state) => Ok(state),
        None => Err(SMFError::new(registry_failure)),
    }
}

/// The outcomes of the native calls a single-property read makes, as
/// plain values the caller gathered in order: the connection
/// create-and-bind outcome (consulted only when no shared handle is
/// supplied), whether the resolution returned a value set, the
/// failure-state slot read at the failing call, the set's value count,
/// the declared type tag of the single value, and the ASCII string
/// payload read for it. The caller of a failed stage passes any values
/// for the later ones.
pub struct PropLookup {
    pub bind_ok: bool,
    pub resolved: bool,
    pub registry_failure: String,
    pub count: u64,
    pub tag: PropTypeTag,
    pub astring: String,
}

/// The kind of error a single-property read ends in; `None` means the
/// read succeeds and decodes. `shared` says whether the caller supplied
/// an already-bound handle, in which case no private bind happens.
pub open spec fn prop_error_kind(
    shared: bool,
    bind_ok: bool,
    fmri: Seq<char>,
    pg: Seq<char>,
    prop: Seq<char>,
    resolved: bool,
    count: u64,
    tag: PropTypeTag,
) -> Option<SMFErrorKind> {
    if !shared && !bind_ok {
        Some(SMFErrorKind::Registry)
    } else if contains_nul(fmri) || contains_nul(pg) || contains_nul(prop) {
        Some(SMFErrorKind::InvalidArgument)
    } else if !resolved {
        Some(SMFErrorKind::Registry)
    } else if count != 1 {
        Some(SMFErrorKind::Cardinality { count })
    } else if tag != PropTypeTag::AString {
        Some(SMFErrorKind::UnsupportedType { tag })
    } else {
        None
    }
}

/// The message a failing single-property read carries, case for case
/// with `prop_error_kind`: the failure-state slot for registry
/// failures, and a locally synthesized text for semantic conditions.
pub open spec fn prop_error_message(
    shared: bool,
    bind_ok: bool,
    registry_failure: Seq<char>,
    fmri: Seq<char>,
    pg: Seq<char>,
    prop: Seq<char>,
    resolved: bool,
    count: u64,
) -> Seq<char> {
    if !shared && !bind_ok {
        registry_failure
    } else if contains_nul(fmri) || contains_nul(pg) || contains_nul(prop) {
        "invalid string: nul byte found in provided data"@
    } else if !resolved {
        registry_failure
    } else if count != 1 {
        "expected 1 propval, got "@ + decimal_digits(count as nat)
    } else {
        "not implemented"@
    }
}

/// Reads and decodes the composed value of one property of the service
/// instance named by `fmri`, in property group `pg`, under property
/// name `prop`. With `hdl` the caller lends an already-bound handle,
/// amortizing the connection across many reads; with none, a private
/// handle is opened for this call alone and released on every path —
/// both shapes decode identically. The resolved set must hold exactly
/// one value: zero or several fail with a cardinality error carrying
/// the observed count. The single value's declared type dispatches to
/// exactly one decode arm; the ASCII string tag decodes to the
/// `AString` variant, deep-copied out of the call-scoped native buffer,
/// and every other tag fails as unsupported.
#[allow(non_snake_case)]
pub fn PropGetOne(
    hdl: Option<&SCFHandle>,
    fmri: &str,
    pg: &str,
    prop: &str,
    lookup: PropLookup,
) -> (r: Result<PropertyValue, SMFError>)
    requires
        hdl matches Some(h) ==> h.is_bound(),
    ensures
        r is Err <==> prop_error_kind(
            hdl is Some,
            lookup.bind_ok,
            fmri@,
            pg@,
            prop@,
            lookup.resolved,
            lookup.count,
            lookup.tag,
        ) is Some,
        r matches Err(e) ==> Some(e.kind) == prop_error_kind(
            hdl is Some,
            lookup.bind_ok,
            fmri@,
            pg@,
            prop@,
            lookup.resolved,
            lookup.count,
            lookup.tag,
        ),
        r matches Err(e) ==> e.smf_error@ == prop_error_message(
            hdl is Some,
            lookup.bind_ok,
            lookup.registry_failure@,
            fmri@,
            pg@,
            prop@,
            lookup.resolved,
            lookup.count,
        ),
        r matches Ok(v) ==> (v matches PropertyValue::AString(a) && a.inner@ == lookup.astring@),
{
    let mut private: Option<SCFHandle> = None;
    if hdl.is_none() {
        match SCFHandle::open(lookup.bind_ok, lookup.registry_failure.clone()) {
            Ok(h) => {
                private = Some(h);
            },
            Err(e) => {
                return Err(e);
            },
        }
    }
    let r = prop_decode(fmri, pg, prop, &lookup);
    match private {
        Some(mut h) => {
            h.close();
        },
        None => (),
    }
    r
}

/// The decode stage shared by both handle shapes of `PropGetOne`:
/// validates the three caller strings, then dispatches on the
/// resolution outcome, the value count and the declared type tag.
fn prop_decode(fmri: &str, pg: &str, prop: &str, lookup: &PropLookup) -> (r: Result<
    PropertyValue,
    SMFError,
>)
    ensures
        r is Err <==> prop_error_kind(
            true,
            true,
            fmri@,
            pg@,
            prop@,
            lookup.resolved,
            lookup.count,
            lookup.tag,
        ) is Some,
        r matches Err(e) ==> Some(e.kind) == prop_error_kind(
            true,
            true,
            fmri@,
            pg@,
            prop@,
            lookup.resolved,
            lookup.count,
            lookup.tag,
        ),
        r matches Err(e) ==> e.smf_error@ == prop_error_message(
            true,
            true,
            lookup.registry_failure@,
            fmri@,
            pg@,
            prop@,
            lookup.resolved,
            lookup.count,
        ),
        r matches Ok(v) ==> (v matches PropertyValue::AString(a) && a.inner@ == lookup.astring@),
{
    match check_no_nul(fmri) {
        Ok(()) => (),
        Err(e) => {
            return Err(e);
        },
    }
    match check_no_nul(pg) {
        Ok(()) => (),
        Err(e) => {
            return Err(e);
        },
    }
    match check_no_nul(prop) {
        Ok(()) => (),
        Err(e) => {
            return Err(e);
        },
    }
    if !lookup.resolved {
        return Err(SMFError::new(lookup.registry_failure.clone()));
    }
    if lookup.count != 1 {
        return Err(SMFError::cardinality(lookup.count));
    }
    match lookup.tag {
        PropTypeTag::AString => Ok(
            PropertyValue::AString(AStringProp { inner: lookup.astring.clone() }),
        ),
        _ => Err(SMFError::unsupported_type(lookup.tag)),
    }
}

/// An identity resolution ends in the not-associated kind exactly when
/// the limit and bind stages succeeded and the native lookup signalled
/// its minus-one sentinel; every other failing resolution carries the
/// registry kind, so the two conditions are distinguishable by kind
/// alone.
pub proof fn lemma_resolve_kinds(limit: i64, bind_ok: bool, need: i64)
    ensures
        resolve_error_kind(limit, bind_ok, need) == Some(SMFErrorKind::NotAssociated) <==> (limit
            > 0 && bind_ok && need == -1),
        resolve_error_kind(limit, bind_ok, need) matches Some(k) ==> (k
            == SMFErrorKind::NotAssociated || k == SMFErrorKind::Registry),
{
}

/// A state lookup ends in the invalid-argument kind exactly when the
/// queried FMRI holds an embedded nul — whatever the native lookup
/// would return, since no native call is made for such an FMRI.
pub proof fn lemma_state_rejects_nul(fmri: Seq<char>, found: bool)
    ensures
        state_error_kind(fmri, found) == Some(SMFErrorKind::InvalidArgument) <==> contains_nul(
            fmri,
        ),
        contains_nul(fmri) ==> state_error_kind(fmri, true) == state_error_kind(fmri, false),
{
}

/// A state lookup never ends in the not-associated kind, on any FMRI
/// and any lookup outcome; so a state query made with the FMRI of a
/// successful resolution can fail only with the registry or
/// invalid-argument kinds.
pub proof fn lemma_state_never_not_associated(fmri: Seq<char>, found: bool)
    ensures
        state_error_kind(fmri, found) != Some(SMFErrorKind::NotAssociated),
{
}

/// A property read ends in the cardinality kind — carrying exactly the
/// observed count — precisely when the connection and the three caller
/// strings were accepted, the resolution returned a value set, and that
/// set held zero or several values rather than one.
pub proof fn lemma_cardinality_exact(
    shared: bool,
    bind_ok: bool,
    fmri: Seq<char>,
    pg: Seq<char>,
    prop: Seq<char>,
    resolved: bool,
    count: u64,
    tag: PropTypeTag,
)
    ensures
        prop_error_kind(shared, bind_ok, fmri, pg, prop, resolved, count, tag) == Some(
            SMFErrorKind::Cardinality { count },
        ) <==> ((shared || bind_ok) && !contains_nul(fmri) && !contains_nul(pg) && !contains_nul(
            prop,
        ) && resolved && count != 1),
{
}

/// With a single resolved value, the read decodes exactly the ASCII
/// string tag: every other declared tag fails with the unsupported-type
/// kind carrying that tag, and no tag but the ASCII string tag
/// succeeds.
pub proof fn lemma_unsupported_tags(
    shared: bool,
    bind_ok: bool,
    fmri: Seq<char>,
    pg: Seq<char>,
    prop: Seq<char>,
    resolved: bool,
    tag: PropTypeTag,
)
    ensures
        prop_error_kind(shared, bind_ok, fmri, pg, prop, resolved, 1, tag) == Some(
            SMFErrorKind::UnsupportedType { tag },
        ) <==> ((shared || bind_ok) && !contains_nul(fmri) && !contains_nul(pg) && !contains_nul(
            prop,
        ) && resolved && tag != PropTypeTag::AString),
        prop_error_kind(shared, bind_ok, fmri, pg, prop, resolved, 1, tag) is None <==> ((shared
            || bind_ok) && !contains_nul(fmri) && !contains_nul(pg) && !contains_nul(prop)
            && resolved && tag == PropTypeTag::AString),
{
}

/// A property read decides identically with a caller-shared handle and
/// with a freshly, successfully opened private one: the two shapes end
/// in the same outcome kind on the same lookup, and the decoded value
/// never depends on the handle shape.
pub proof fn lemma_shared_or_private_alike(
    bind_ok: bool,
    fmri: Seq<char>,
    pg: Seq<char>,
    prop: Seq<char>,
    resolved: bool,
    count: u64,
    tag: PropTypeTag,
)
    ensures
        prop_error_kind(true, bind_ok, fmri, pg, prop, resolved, count, tag) == prop_error_kind(
            false,
            true,
            fmri,
            pg,
            prop,
            resolved,
            count,
            tag,
        ),
{
}

} // verus!

