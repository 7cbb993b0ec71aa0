use vstd::prelude::*;
use vstd::string::StringExecFns;
use crate::masking::{MaskType, mask, spec_mask, spec_hidden, hide_str};
use crate::display::{spec_int_text, spec_nat_text, spec_bool_text, i64_text, u64_text, bool_text};

verus! {

/// Trait used to produce masked values.
///
/// String-like values render as the masked text in double quotes; values with
/// a plain single-line representation render as that text masked, unquoted;
/// containers recurse into their elements. A type with none of those
/// capabilities implements `fmt_masked` as [`fmt_masked_opaque`], keeping the
/// default masked view: the fixed placeholder regardless of the mask type.
pub trait DeboogField {
    /// The characters that `fmt_masked` yields for this value under the given mask type.
    open spec fn masked_view(&self, mask_type: MaskType) -> Seq<char> {
        spec_hidden()
    }

    /// Writes masked debug value
    fn fmt_masked(&self, mask_type: MaskType) -> (r: String)
        ensures
            r@ == self.masked_view(mask_type),
    ;
}

/// An opaque value under masking: whatever the mask type, only the fixed
/// placeholder is shown. A type with no string-like, plain, or container
/// nature can make this its `fmt_masked`.
pub fn fmt_masked_opaque(mask_type: MaskType) -> (r: String)
    ensures
        r@ == spec_hidden(),
{
    hide_str().to_owned()
}

impl DeboogField for String {
    open spec fn masked_view(&self, mask_type: MaskType) -> Seq<char> {
        seq!['"'] + spec_mask(self@, mask_type) + seq!['"']
    }

    fn fmt_masked(&self, mask_type: MaskType) -> (r: String) {
        let masked = mask(self.as_str(), mask_type);
        let mut r = String::from_str("\"");
        r.append(masked.as_str());
        r.append("\"");
        proof {
            reveal_strlit("\"");
            assert(r@ =~= self.masked_view(mask_type));
        }
        r
    }
}

impl DeboogField for &str {
    open spec fn masked_view(&self, mask_type: MaskType) -> Seq<char> {
        seq!['"'] + spec_mask((*self)@, mask_type) + seq!['"']
    }

    fn fmt_masked(&self, mask_type: MaskType) -> (r: String) {
        let masked = mask(*self, mask_type);
        let mut r = String::from_str("\"");
        r.append(masked.as_str());
        r.append("\"");
        proof {
            reveal_strlit("\"");
            assert(r@ =~= self.masked_view(mask_type));
        }
        r
    }
}

impl<T: DeboogField> DeboogField for &T {
    open spec fn masked_view(&self, mask_type: MaskType) -> Seq<char> {
        (**self).masked_view(mask_type)
    }

    fn fmt_masked(&self, mask_type: MaskType) -> (r: String) {
        (**self).fmt_masked(mask_type)
    }
}

impl DeboogField for i64 {
    open spec fn masked_view(&self, mask_type: MaskType) -> Seq<char> {
        spec_mask(spec_int_text(*self as int), mask_type)
    }

    fn fmt_masked(&self, mask_type: MaskType) -> (r: String) {
        let plain = i64_text(*self);
        mask(plain.as_str(), mask_type)
    }
}

impl DeboogField for u64 {
    open spec fn masked_view(&self, mask_type: MaskType) -> Seq<char> {
        spec_mask(spec_nat_text(*self as int), mask_type)
    }

    fn fmt_masked(&self, mask_type: MaskType) -> (r: String) {
        let plain = u64_text(*self);
        mask(plain.as_str(), mask_type)
    }
}

impl DeboogField for bool {
    open spec fn masked_view(&self, mask_type: MaskType) -> Seq<char> {
        spec_mask(spec_bool_text(*self), mask_type)
    }

    fn fmt_masked(&self, mask_type: MaskType) -> (r: String) {
        mask(bool_text(*self), mask_type)
    }
}

impl<T: DeboogField> DeboogField for Option<T> {
    open spec fn masked_view(&self, mask_type: MaskType) -> Seq<char> {
        match self {
            Option::Some(value) => "Some("@ + value.masked_view(mask_type) + ")"@,
            Option::None => "None"@,
        }
    }

    fn fmt_masked(&self, mask_type: MaskType) -> (r: String) {
        match self {
            Option::Some(value) => {
                let mut r = String::from_str("Some(");
                let inner = value.fmt_masked(mask_type);
                r.append(inner.as_str());
                r.append(")");
                r
            },
            Option::None => String::from_str("None"),
        }
    }
}

/// Masked items of a sequence from a given index on, every item after the
/// first preceded by a comma separator.
pub open spec fn spec_masked_items<T: DeboogField>(
    items: Seq<T>,
    mask_type: MaskType,
    i: int,
) -> Seq<char>
    decreases items.len() - i,
{
    if i < 0 || i >= items.len() {
        Seq::<char>::empty()
    } else {
        (if i > 0 {
            ", "@
        } else {
            Seq::<char>::empty()
        }) + items[i].masked_view(mask_type) + spec_masked_items(items, mask_type, i + 1)
    }
}

impl<T: DeboogField> DeboogField for Vec<T> {
    open spec fn masked_view(&self, mask_type: MaskType) -> Seq<char> {
        seq!['['] + spec_masked_items(self@, mask_type, 0) + seq![']']
    }

    #[verifier::loop_isolation(false)]
    fn fmt_masked(&self, mask_type: MaskType) -> (r: String) {
        let mut r = String::from_str("[");
        proof {
            reveal_strlit("[");
        }
        let mut i: usize = 0;
        while i < self.len()
            invariant
                i <= self@.len(),
                seq!['['] + spec_masked_items(self@, mask_type, 0) == r@ + spec_masked_items(
                    self@,
                    mask_type,
                    i as int,
                ),
            decreases self@.len() - i,
        {
            if i > 0 {
                r.append(", ");
                proof {
                    reveal_strlit(", ");
                }
            }
            let inner = self[i].fmt_masked(mask_type);
            r.append(inner.as_str());
            i = i + 1;
        }
        r.append("]");
        proof {
            reveal_strlit("]");
            assert(r@ =~= self.masked_view(mask_type));
        }
        r
    }
}

/// Wrapper object to specify type of masking
pub enum Masked<'a, T: DeboogField> {
    /// Replaces all characters with `*`
    All(&'a T),
    /// Same as [`Masked::All`], but leaves unmasked characters according to PAN masking convention
    ///
    /// Leaves 6 characters in the beginning and 4 characters at the end of the string.
    Pan(&'a T),
    /// Replaces all but last four characters with a single `*` symbol
    PanSuffix(&'a T),
    /// Replaces all characters with a fixed string
    Hidden(&'a T),
}

impl<'a, T: DeboogField> Masked<'a, T> {
    /// The characters that `fmt` yields: the wrapped value masked by the
    /// selected strategy, or the bare placeholder when hidden.
    pub open spec fn fmt_view(&self) -> Seq<char> {
        match self {
            Masked::All(value) => value.masked_view(MaskType::All),
            Masked::Pan(value) => value.masked_view(MaskType::Pan),
            Masked::PanSuffix(value) => value.masked_view(MaskType::PanSuffix),
            Masked::Hidden(_) => spec_hidden(),
        }
    }

    /// Writes the masked debug value of the wrapped reference.
    pub fn fmt(&self) -> (r: String)
        ensures
            r@ == self.fmt_view(),
    {
        match self {
            Masked::All(value) => value.fmt_masked(MaskType::All),
            Masked::Pan(value) => value.fmt_masked(MaskType::Pan),
            Masked::PanSuffix(value) => value.fmt_masked(MaskType::PanSuffix),
            Masked::Hidden(_) => hide_str().to_owned(),
        }
    }
}

} // verus!
