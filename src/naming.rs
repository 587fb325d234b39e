use vstd::prelude::*;
use vstd::string::StrSliceExecFns;

verus! {

/// What `inflector::cases::classcase::to_class_case` returns for a name.
pub uninterp spec fn class_case_of(s: Seq<char>) -> Seq<char>;

/// What `inflector::cases::snakecase::to_snake_case` returns for a name.
pub uninterp spec fn snake_case_of(s: Seq<char>) -> Seq<char>;

/// Relies on `inflector::cases::classcase::to_class_case`, which depends on its
/// argument alone (`usb_dm` becomes `UsbDm`).
#[verifier::external_body]
pub(crate) fn to_class_case(s: &String) -> (r: String)
    ensures
        r@ == class_case_of(s@),
{
    inflector::cases::classcase::to_class_case(s.as_str())
}

/// Relies on `inflector::cases::snakecase::to_snake_case`, which depends on its
/// argument alone (`UsbResources` becomes `usb_resources`).
#[verifier::external_body]
pub(crate) fn to_snake_case(s: &String) -> (r: String)
    ensures
        r@ == snake_case_of(s@),
{
    inflector::cases::snakecase::to_snake_case(s.as_str())
}

pub open spec fn is_ident_start(c: char) -> bool {
    ('a' <= c && c <= 'z') || ('A' <= c && c <= 'Z') || c == '_'
}

pub open spec fn is_ident_continue(c: char) -> bool {
    is_ident_start(c) || ('0' <= c && c <= '9')
}

/// An ASCII Rust identifier: a letter or underscore, then letters, digits and
/// underscores; a lone underscore is not one.
pub open spec fn is_ident(s: Seq<char>) -> bool {
    &&& s.len() > 0
    &&& is_ident_start(s[0])
    &&& forall|i: int| 1 <= i < s.len() ==> is_ident_continue(#[trigger] s[i])
    &&& s != seq!['_']
}

/// Tells whether `s` can stand as a declared name in the generated code.
pub fn check_ident(s: &String) -> (r: bool)
    ensures
        r == is_ident(s@),
{
    let t = s.as_str();
    let n = t.unicode_len();
    if n == 0 {
        return false;
    }
    let c0 = t.get_char(0);
    if !(('a' <= c0 && c0 <= 'z') || ('A' <= c0 && c0 <= 'Z') || c0 == '_') {
        return false;
    }
    if n == 1 && c0 == '_' {
        assert(s@ =~= seq!['_']);
        return false;
    }
    let mut i: usize = 1;
    while i < n
        invariant
            t@ == s@,
            n == s@.len(),
            1 <= i <= n,
            forall|j: int| 1 <= j < i ==> is_ident_continue(#[trigger] s@[j]),
        decreases n - i,
    {
        let c = t.get_char(i);
        if !(('a' <= c && c <= 'z') || ('A' <= c && c <= 'Z') || c == '_' || ('0' <= c && c <= '9')) {
            return false;
        }
        i = i + 1;
    }
    proof {
        if n == 1 {
            if s@ == seq!['_'] {
                assert(s@[0] == '_');
            }
        } else {
            assert(s@.len() != seq!['_'].len());
        }
    }
    true
}

} // verus!
