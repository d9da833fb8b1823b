use vstd::prelude::*;
use vstd::string::StringSliceAdditionalSpecFns;
use vstd::utf8::{
    encode_utf8, is_char_boundary, is_continuation_byte, pop_first_scalar, valid_utf8,
};

verus! {

/// The byte `/`, which separates the service from the method in a call path.
pub const SLASH: u8 = 0x2f;

/// The text placed between the caller and the method in a histogram's name.
pub const NAME_JOINER: &'static str = "_to_";

/// The attribution of one call: who called, and which method.
pub struct CallIdentity {
    pub caller: String,
    pub method: String,
}

impl CallIdentity {
    /// The identity as a pair of character sequences; two identities are the
    /// same key exactly when both parts are equal.
    pub open spec fn key(&self) -> (Seq<char>, Seq<char>) {
        (self.caller@, self.method@)
    }

    /// Builds an identity from its two parts.
    pub fn new(caller: &str, method: &str) -> (r: CallIdentity)
        ensures
            r.caller@ == caller@,
            r.method@ == method@,
    {
        CallIdentity { caller: caller.to_owned(), method: method.to_owned() }
    }

    /// Whether two identities name the same key.
    pub fn same_key(&self, other: &CallIdentity) -> (r: bool)
        ensures
            r == (self.key() == other.key()),
    {
        self.caller == other.caller && self.method == other.method
    }

    /// A copy of the identity.
    pub fn duplicate(&self) -> (r: CallIdentity)
        ensures
            r.key() == self.key(),
    {
        CallIdentity { caller: self.caller.clone(), method: self.method.clone() }
    }

    /// The name under which this identity's histogram is registered:
    /// `<caller>_to_<method>`.
    pub fn metric_name(&self) -> (r: String)
        ensures
            r@ == metric_name_of(self.key()),
    {
        let mut name = self.caller.clone();
        name.push_str(NAME_JOINER);
        name.push_str(self.method.as_str());
        proof {
            reveal_strlit("_to_");
        }
        name
    }
}

/// The histogram name of a key.
pub open spec fn metric_name_of(key: (Seq<char>, Seq<char>)) -> Seq<char> {
    key.0 + NAME_JOINER@ + key.1
}

/// Relies on `String::push_str`: the text is appended at the end.
pub assume_specification[ String::push_str ](s: &mut String, other: &str)
    ensures
        final(s)@ == old(s)@ + other@,
;

/// The index of the last `/` in `p`, or -1 when there is none.
pub open spec fn last_slash(p: Seq<u8>) -> int
    decreases p.len(),
{
    if p.len() == 0 {
        -1
    } else if p.last() == SLASH {
        p.len() - 1
    } else {
        last_slash(p.drop_last())
    }
}

/// Where the method name starts in a call path of the form
/// `/<service>/<method>`, with a non-empty service and a non-empty method
/// that holds no `/`; nothing for a path of another shape.
pub open spec fn method_start(p: Seq<u8>) -> Option<int> {
    let k = last_slash(p);
    if p.len() > 0 && p[0] == SLASH && 2 <= k && k + 1 < p.len() {
        Some(k + 1)
    } else {
        None
    }
}

/// The characters of an optional text.
pub open spec fn text_of(t: Option<&str>) -> Option<Seq<char>> {
    match t {
        Some(s) => Some(s@),
        None => None,
    }
}

/// The identity that a call's metadata gives: the caller from the
/// client-name entry and the method from the call path, when both are there
/// and well formed.
pub open spec fn identity_of(path: Seq<u8>, caller: Option<Seq<char>>) -> Option<
    (Seq<char>, Seq<u8>),
> {
    match (caller, method_start(path)) {
        (Some(c), Some(m)) => if c.len() > 0 {
            Some((c, path.subrange(m, path.len() as int)))
        } else {
            None
        },
        _ => None,
    }
}

proof fn lemma_last_slash(p: Seq<u8>)
    ensures
        -1 <= last_slash(p) < p.len(),
        last_slash(p) >= 0 ==> p[last_slash(p)] == SLASH,
        forall|i: int| last_slash(p) < i < p.len() ==> p[i] != SLASH,
    decreases p.len(),
{
    if p.len() > 0 && p.last() != SLASH {
        let q = p.drop_last();
        lemma_last_slash(q);
        assert forall|i: int| last_slash(p) < i < p.len() implies p[i] != SLASH by {
            if i < q.len() {
                assert(p[i] == q[i]);
            }
        }
    }
}

/// A sequence that starts with a one-byte character has a boundary after it.
proof fn lemma_boundary_after_ascii(b: Seq<u8>)
    requires
        valid_utf8(b),
        b.len() >= 1,
        b[0] < 0x80u8,
    ensures
        is_char_boundary(b, 1),
{
    reveal_with_fuel(valid_utf8, 2);
    let t = pop_first_scalar(b);
    assert(valid_utf8(t));
    assert(is_char_boundary(t, 0));
}

/// Finds the start of the method name in a call path.
fn find_method_start(p: &[u8]) -> (r: Option<usize>)
    ensures
        match r {
            Some(m) => method_start(p@) == Some(m as int),
            None => method_start(p@) is None,
        },
{
    let mut i: usize = p.len();
    assert(p@.subrange(0, p@.len() as int) =~= p@);
    while i > 0
        invariant
            i <= p.len(),
            last_slash(p@) == last_slash(p@.subrange(0, i as int)),
        ensures
            i <= p.len(),
            last_slash(p@) == i - 1,
        decreases i,
    {
        assert(p@.subrange(0, i as int).drop_last() =~= p@.subrange(0, i - 1));
        if p[i - 1] == SLASH {
            break;
        }
        i = i - 1;
        if i == 0 {
            assert(p@.subrange(0, 0) =~= Seq::<u8>::empty());
        }
    }
    if p.len() > 0 && p[0] == SLASH && i >= 3 && i < p.len() {
        Some(i)
    } else {
        None
    }
}

/// Reads the identity of a call from its path (`/<service>/<method>`) and the
/// optional client-name entry of its metadata. Gives nothing, and never
/// fails, when either is missing or malformed.
pub fn extract_identity(path: &str, client_name: Option<&str>) -> (r: Option<CallIdentity>)
    ensures
        match (r, identity_of(path.spec_bytes(), text_of(client_name))) {
            (Some(id), Some(want)) => id.caller@ == want.0 && encode_utf8(id.method@) == want.1,
            (None, None) => true,
            _ => false,
        },
{
    let caller = match client_name {
        Some(c) => c,
        None => return None,
    };
    if caller.is_empty() {
        return None;
    }
    let bytes = path.as_bytes();
    let m = match find_method_start(bytes) {
        Some(m) => m,
        None => return None,
    };
    let slash = m - 1;
    proof {
        let b = path.spec_bytes();
        vstd::utf8::encode_utf8_valid_utf8(path@);
        lemma_last_slash(b);
        assert(b[slash as int] == SLASH);
        vstd::utf8::is_char_boundary_iff_not_is_continuation_byte(b, slash as int);
        assert(!is_continuation_byte(b[slash as int]));
    }
    let (_, tail) = path.split_at(slash);
    proof {
        vstd::utf8::encode_utf8_valid_utf8(tail@);
        assert(tail.spec_bytes()[0] == SLASH);
        lemma_boundary_after_ascii(tail.spec_bytes());
    }
    let (_, method) = tail.split_at(1);
    proof {
        assert(method.spec_bytes() =~= path.spec_bytes().subrange(m as int, path.spec_bytes().len() as int));
    }
    Some(CallIdentity::new(caller, method))
}

} // verus!
