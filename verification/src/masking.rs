use vstd::prelude::*;
use vstd::string::StrSliceExecFns;
use vstd::string::StringExecFns;

verus! {

/// The fixed placeholder shown in place of a hidden value: three asterisks.
pub open spec fn spec_hidden() -> Seq<char> {
    seq!['*', '*', '*']
}

/// Default replacement value when a field's value is hidden entirely.
pub fn hide_str() -> (r: &'static str)
    ensures
        r@ == spec_hidden(),
{
    proof {
        reveal_strlit("***");
        assert("***"@ =~= spec_hidden());
    }
    "***"
}

/// Mask type
#[derive(Clone, Copy)]
pub enum MaskType {
    /// Replaces all characters with `*`
    All,
    /// Same as [`MaskType::All`], but leaves unmasked characters according to PAN masking convention
    ///
    /// Leaves 6 characters in the beginning and 4 characters at the end of the string.
    Pan,
    /// Replaces all but last four characters with a single `*` symbol
    PanSuffix,
}

/// Every character replaced by an asterisk, one per character.
pub open spec fn spec_mask_all(s: Seq<char>) -> Seq<char> {
    Seq::new(s.len(), |i: int| '*')
}

/// First position that PAN masking leaves unmasked at the end of the string.
pub open spec fn spec_pan_limit(n: int) -> int {
    if n > 4 {
        n - 4
    } else {
        0
    }
}

/// PAN masking: a character survives if it is among the first six or the
/// last four; every character strictly between is replaced by an asterisk.
pub open spec fn spec_mask_pan(s: Seq<char>) -> Seq<char> {
    Seq::new(
        s.len(),
        |i: int|
            if i < 6 || i >= spec_pan_limit(s.len() as int) {
                s[i]
            } else {
                '*'
            },
    )
}

/// PAN suffix masking: at most four characters pass through unchanged;
/// a longer string collapses to one asterisk followed by its last four characters.
pub open spec fn spec_mask_pan_suffix(s: Seq<char>) -> Seq<char> {
    if s.len() <= 4 {
        s
    } else {
        seq!['*'] + s.subrange(s.len() - 4, s.len() as int)
    }
}

/// The masking transform selected by a [`MaskType`].
pub open spec fn spec_mask(s: Seq<char>, mask_type: MaskType) -> Seq<char> {
    match mask_type {
        MaskType::All => spec_mask_all(s),
        MaskType::Pan => spec_mask_pan(s),
        MaskType::PanSuffix => spec_mask_pan_suffix(s),
    }
}

/// Produces masked string based on mask type
pub fn mask(value: &str, mask_type: MaskType) -> (r: String)
    ensures
        r@ == spec_mask(value@, mask_type),
{
    match mask_type {
        MaskType::All => mask_all(value),
        MaskType::Pan => mask_pan(value),
        MaskType::PanSuffix => mask_pan_suffix(value),
    }
}

/// Replaces all characters with `*`
pub fn mask_all(value: &str) -> (r: String)
    ensures
        r@ == spec_mask_all(value@),
{
    let n = value.unicode_len();
    let mut r = String::new();
    let mut i: usize = 0;
    while i < n
        invariant
            n == value@.len(),
            i <= n,
            r@ == spec_mask_all(value@).subrange(0, i as int),
        decreases n - i,
    {
        r.append("*");
        proof {
            reveal_strlit("*");
            assert(r@ =~= spec_mask_all(value@).subrange(0, i + 1 as int));
        }
        i = i + 1;
    }
    proof {
        assert(r@ =~= spec_mask_all(value@));
    }
    r
}

/// Same as [`mask_all`], but leaves unmasked characters according to PAN masking convention
///
/// Leaves 6 characters in the beginning and 4 characters at the end of the string.
pub fn mask_pan(value: &str) -> (r: String)
    ensures
        r@ == spec_mask_pan(value@),
{
    let n = value.unicode_len();
    let limit = if n > 4 {
        n - 4
    } else {
        0
    };
    let mut r = String::new();
    let mut i: usize = 0;
    while i < n
        invariant
            n == value@.len(),
            limit == spec_pan_limit(n as int),
            i <= n,
            r@ == spec_mask_pan(value@).subrange(0, i as int),
        decreases n - i,
    {
        if i < 6 || i >= limit {
            let piece = value.substring_char(i, i + 1);
            r.append(piece);
            proof {
                assert(piece@ =~= seq![value@[i as int]]);
            }
        } else {
            r.append("*");
            proof {
                reveal_strlit("*");
            }
        }
        proof {
            assert(r@ =~= spec_mask_pan(value@).subrange(0, i + 1 as int));
        }
        i = i + 1;
    }
    proof {
        assert(r@ =~= spec_mask_pan(value@));
    }
    r
}

/// Replaces all but last four characters with a single `*` symbol
pub fn mask_pan_suffix(value: &str) -> (r: String)
    ensures
        r@ == spec_mask_pan_suffix(value@),
{
    let n = value.unicode_len();
    if n <= 4 {
        value.to_owned()
    } else {
        let mut r = String::from_str("*");
        let tail = value.substring_char(n - 4, n);
        r.append(tail);
        proof {
            reveal_strlit("*");
            assert(r@ =~= spec_mask_pan_suffix(value@));
        }
        r
    }
}

/// Masking with [`MaskType::All`] yields a string of the same length made
/// only of asterisks.
pub proof fn lemma_mask_all_masks_everything(s: Seq<char>)
    ensures
        spec_mask_all(s).len() == s.len(),
        forall|i: int| 0 <= i < s.len() ==> spec_mask_all(s)[i] == '*',
{
}

/// A string of at most ten characters passes through PAN masking unchanged:
/// the first-six and last-four windows cover it entirely.
pub proof fn lemma_mask_pan_short(s: Seq<char>)
    requires
        s.len() <= 10,
    ensures
        spec_mask_pan(s) == s,
{
    assert(spec_mask_pan(s) =~= s);
}

/// A string of more than ten characters keeps its first six and last four
/// characters under PAN masking, and every character strictly between them
/// becomes an asterisk.
pub proof fn lemma_mask_pan_long(s: Seq<char>)
    requires
        s.len() > 10,
    ensures
        spec_mask_pan(s).len() == s.len(),
        forall|i: int| 0 <= i < 6 ==> spec_mask_pan(s)[i] == s[i],
        forall|i: int| s.len() - 4 <= i < s.len() ==> spec_mask_pan(s)[i] == s[i],
        forall|i: int| 6 <= i < s.len() - 4 ==> spec_mask_pan(s)[i] == '*',
{
}

/// PAN suffix masking returns strings of at most four characters unchanged,
/// and otherwise one asterisk followed by exactly the last four characters.
pub proof fn lemma_mask_pan_suffix_form(s: Seq<char>)
    ensures
        s.len() <= 4 ==> spec_mask_pan_suffix(s) == s,
        s.len() > 4 ==> spec_mask_pan_suffix(s) == seq!['*'] + s.subrange(
            s.len() - 4,
            s.len() as int,
        ),
{
}

} // verus!
