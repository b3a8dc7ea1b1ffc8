//! String utilities shared by the argument, manifest and reporting layers:
//! character-exact equality, trimming, dash-to-underscore mapping, and the
//! character classifiers the project-name rules depend on.

use vstd::prelude::*;
use vstd::string::StrSliceExecFns;
use vstd::string::StringExecFns;

verus! {

/// Whether `c` is alphanumeric under Unicode, as `char::is_alphanumeric`
/// decides it.
pub uninterp spec fn is_unicode_alphanumeric(c: char) -> bool;

/// Whether `c` is alphabetic under Unicode, as `char::is_alphabetic`
/// decides it.
pub uninterp spec fn is_unicode_alphabetic(c: char) -> bool;

/// The lowercase form of `s` under Unicode case folding, as
/// `str::to_lowercase` computes it.
pub uninterp spec fn lower_of(s: Seq<char>) -> Seq<char>;

/// Relies on `char::is_alphanumeric`: true on the Unicode `Alphabetic` and
/// number categories; its documentation places ASCII letters and digits
/// inside them and punctuation and spaces outside.
#[verifier::external_body]
pub(crate) fn char_is_alphanumeric(c: char) -> (r: bool)
    ensures
        r == is_unicode_alphanumeric(c),
        ('0' <= c <= '9' || 'a' <= c <= 'z' || 'A' <= c <= 'Z') ==> r,
        (c == '-' || c == '_' || c == ' ') ==> !r,
{
    c.is_alphanumeric()
}

/// Relies on `char::is_alphabetic`: true on the Unicode `Alphabetic`
/// category; its documentation places ASCII letters inside it and digits,
/// punctuation and spaces outside.
#[verifier::external_body]
pub(crate) fn char_is_alphabetic(c: char) -> (r: bool)
    ensures
        r == is_unicode_alphabetic(c),
        ('a' <= c <= 'z' || 'A' <= c <= 'Z') ==> r,
        ('0' <= c <= '9' || c == '-' || c == '_' || c == ' ') ==> !r,
{
    c.is_alphabetic()
}

/// A blank character: the spacing that surrounds values in manifest text
/// and tool output.
pub open spec fn is_blank(c: char) -> bool {
    c == ' ' || c == '\t' || c == '\n' || c == '\r'
}

/// Tests whether `c` is a blank character.
pub(crate) fn char_is_blank(c: char) -> (r: bool)
    ensures
        r == is_blank(c),
{
    c == ' ' || c == '\t' || c == '\n' || c == '\r'
}

/// Relies on `str::to_lowercase`: the result is a function of the input
/// characters alone, and an empty input gives an empty result.
#[verifier::external_body]
pub(crate) fn to_lowercase(s: &str) -> (r: String)
    ensures
        r@ == lower_of(s@),
        s@.len() == 0 ==> r@.len() == 0,
{
    s.to_lowercase()
}

/// Character-exact string equality.
pub fn str_eq(a: &str, b: &str) -> (r: bool)
    ensures
        r == (a@ == b@),
{
    let alen = a.unicode_len();
    let blen = b.unicode_len();
    if alen != blen {
        return false;
    }
    let mut i: usize = 0;
    while i < alen
        invariant
            alen == a@.len(),
            alen == b@.len(),
            0 <= i <= alen,
            forall|j: int| 0 <= j < i ==> a@[j] == b@[j],
        decreases alen - i,
    {
        if a.get_char(i) != b.get_char(i) {
            return false;
        }
        i += 1;
    }
    proof {
        assert(a@ =~= b@);
    }
    true
}

/// `s` with every dash replaced by an underscore, the shape package names
/// take in file and directory names.
pub open spec fn underscored_seq(s: Seq<char>) -> Seq<char> {
    s.map_values(|c: char| if c == '-' { '_' } else { c })
}

/// Replaces every dash in `s` with an underscore.
pub fn underscored(s: &str) -> (r: String)
    ensures
        r@ == underscored_seq(s@),
{
    let len = s.unicode_len();
    let mut out = String::new();
    let mut i: usize = 0;
    proof {
        assert(s@.subrange(0, 0) =~= Seq::<char>::empty());
        assert(underscored_seq(s@.subrange(0, 0)) =~= Seq::<char>::empty());
    }
    while i < len
        invariant
            len == s@.len(),
            0 <= i <= len,
            out@ =~= underscored_seq(s@.subrange(0, i as int)),
        decreases len - i,
    {
        let ghost prev = out@;
        if s.get_char(i) == '-' {
            out.append("_");
            proof {
                reveal_strlit("_");
                assert(out@ =~= prev.push('_'));
            }
        } else {
            let piece = s.substring_char(i, i + 1);
            out.append(piece);
            proof {
                assert(piece@ =~= seq![s@[i as int]]);
                assert(out@ =~= prev.push(s@[i as int]));
            }
        }
        proof {
            assert(underscored_seq(s@.subrange(0, i + 1 as int))
                =~= prev.push(if s@[i as int] == '-' { '_' } else { s@[i as int] }));
        }
        i += 1;
    }
    proof {
        assert(s@.subrange(0, len as int) =~= s@);
    }
    out
}

/// `s` with leading and trailing blank characters removed.
pub open spec fn trimmed(s: Seq<char>) -> Seq<char>
    decreases s.len(),
{
    if s.len() == 0 {
        s
    } else if is_blank(s[0]) {
        trimmed(s.subrange(1, s.len() as int))
    } else if is_blank(s[s.len() - 1]) {
        trimmed(s.subrange(0, s.len() - 1))
    } else {
        s
    }
}

/// Removes leading and trailing blanks from `s`.
#[verifier::rlimit(30)]
pub fn trim(s: &str) -> (r: &str)
    ensures
        r@ == trimmed(s@),
{
    let len = s.unicode_len();
    let mut lo: usize = 0;
    let mut hi: usize = len;
    proof {
        assert(s@.subrange(0, len as int) =~= s@);
    }
    loop
        invariant
            len == s@.len(),
            0 <= lo <= hi <= len,
            trimmed(s@) == trimmed(s@.subrange(lo as int, hi as int)),
        ensures
            0 <= lo <= hi <= len,
            trimmed(s@) == trimmed(s@.subrange(lo as int, hi as int)),
            lo < hi ==> !is_blank(s@[lo as int]),
        decreases hi - lo,
    {
        if lo >= hi {
            break;
        }
        let c = s.get_char(lo);
        if !char_is_blank(c) {
            break;
        }
        proof {
            let cur = s@.subrange(lo as int, hi as int);
            assert(cur.subrange(1, cur.len() as int)
                =~= s@.subrange(lo + 1 as int, hi as int));
        }
        lo += 1;
    }
    loop
        invariant
            len == s@.len(),
            0 <= lo <= hi <= len,
            trimmed(s@) == trimmed(s@.subrange(lo as int, hi as int)),
            lo < hi ==> !is_blank(s@[lo as int]),
        ensures
            0 <= lo <= hi <= len,
            trimmed(s@) == trimmed(s@.subrange(lo as int, hi as int)),
            lo < hi ==> !is_blank(s@[lo as int]),
            lo < hi ==> !is_blank(s@[hi - 1]),
        decreases hi - lo,
    {
        if lo >= hi {
            break;
        }
        let c = s.get_char(hi - 1);
        if !char_is_blank(c) {
            break;
        }
        proof {
            let cur = s@.subrange(lo as int, hi as int);
            assert(cur.len() == hi - lo);
            assert(cur[0] == s@[lo as int]);
            assert(cur[cur.len() - 1] == s@[hi - 1]);
            assert(cur.subrange(0, cur.len() - 1)
                =~= s@.subrange(lo as int, hi - 1 as int));
            assert(trimmed(cur) == trimmed(s@.subrange(lo as int, hi - 1 as int)));
        }
        hi -= 1;
    }
    proof {
        let cur = s@.subrange(lo as int, hi as int);
        if lo < hi {
            assert(cur[0] == s@[lo as int]);
            assert(cur[cur.len() - 1] == s@[hi - 1 as int]);
        }
        assert(trimmed(cur) == cur);
    }
    s.substring_char(lo, hi)
}

/// The rendering of an argument list as a bracketed, comma-separated row of
/// quoted strings: `["a", "b"]`.
pub open spec fn quoted_args_seq(args: Seq<Seq<char>>) -> Seq<char>
    decreases args.len(),
{
    if args.len() == 0 {
        "[]"@
    } else if args.len() == 1 {
        "[\""@ + args[0] + "\"]"@
    } else {
        quoted_args_seq(args.drop_last()).drop_last() + ", \""@ + args[args.len() - 1]
            + "\"]"@
    }
}

/// Renders `args` as a bracketed, comma-separated row of quoted strings.
pub fn quoted_args(args: &Vec<String>) -> (r: String)
    ensures
        r@ == quoted_args_seq(args@.map_values(|a: String| a@)),
{
    let ghost views = args@.map_values(|a: String| a@);
    if args.len() == 0 {
        let out = String::from_str("[]");
        proof {
            assert(views =~= Seq::<Seq<char>>::empty());
        }
        return out;
    }
    let mut out = String::from_str("[\"");
    out.append(args[0].as_str());
    out.append("\"]");
    proof {
        reveal_strlit("[\"");
        reveal_strlit("\"]");
        assert(views.subrange(0, 1) =~= seq![views[0]]);
        assert(out@ =~= quoted_args_seq(views.subrange(0, 1)));
    }
    let mut i: usize = 1;
    while i < args.len()
        invariant
            1 <= i <= args.len(),
            views == args@.map_values(|a: String| a@),
            views.len() == args@.len(),
            out@ == quoted_args_seq(views.subrange(0, i as int)),
            out@.len() > 0,
        decreases args.len() - i,
    {
        let stem = crate::text::take_prefix(&out);
        let mut next = stem;
        next.append(", \"");
        next.append(args[i].as_str());
        next.append("\"]");
        proof {
            reveal_strlit(", \"");
            reveal_strlit("\"]");
            let sub = views.subrange(0, i + 1 as int);
            assert(sub.drop_last() =~= views.subrange(0, i as int));
            assert(sub[sub.len() - 1] == views[i as int]);
            assert(next@ =~= quoted_args_seq(sub));
        }
        out = next;
        i += 1;
    }
    proof {
        assert(views.subrange(0, views.len() as int) =~= views);
    }
    out
}

/// `s` without its last character.
pub fn take_prefix(s: &String) -> (r: String)
    requires
        s@.len() > 0,
    ensures
        r@ == s@.drop_last(),
{
    let len = s.as_str().unicode_len();
    let stem = s.as_str().substring_char(0, len - 1);
    proof {
        assert(s@.subrange(0, s@.len() - 1) =~= s@.drop_last());
    }
    String::from_str(stem)
}

} // verus!
