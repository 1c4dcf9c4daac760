//! The prompt facade's decision logic: resolving which option a selection
//! prompt pre-highlights, which options a multi-selection prompt pre-checks,
//! how the string variant reorders its options around the default, and how
//! the collaborator's reported indices map back to values.
//!
//! The blocking terminal interaction (rendering, key capture) is an external
//! collaborator and is not implemented here; an unverified front end builds a
//! plan with this module, hands its label and items to the collaborator, and
//! maps the reply back through this module.

use crate::enumerable::Enumerable;
use crate::style::{render_styled, spec_resolve, Color, Style};
use vstd::prelude::*;

verus! {

/// Holds when `d` occurs in `options`.
pub open spec fn has_match<T>(options: Seq<T>, d: T) -> bool {
    exists|j: int| 0 <= j < options.len() && options[j] == d
}

/// Holds when `i` is the index a selection prompt pre-highlights: the first
/// occurrence of the requested default among the options, and position 0
/// when no default was requested or the requested one is not an option.
pub open spec fn is_default_index<T>(options: Seq<T>, default: Option<T>, i: int) -> bool {
    match default {
        Option::None => i == 0,
        Option::Some(d) => if has_match(options, d) {
            &&& 0 <= i < options.len()
            &&& options[i] == d
            &&& forall|j: int| 0 <= j < i ==> options[j] != d
        } else {
            i == 0
        },
    }
}

/// Whether one option starts out checked: it is a member of the requested
/// checked set; an absent set checks nothing.
pub open spec fn spec_is_checked<T>(checked: Option<Seq<T>>, item: T) -> bool {
    match checked {
        Option::Some(c) => c.contains(item),
        Option::None => false,
    }
}

/// Holds when `flags` marks exactly the options that are members of the
/// requested checked set.
pub open spec fn are_checked_flags<T>(options: Seq<T>, checked: Option<Seq<T>>, flags: Seq<bool>) -> bool {
    &&& flags.len() == options.len()
    &&& forall|i: int| 0 <= i < options.len()
        ==> #[trigger] flags[i] == spec_is_checked(checked, options[i])
}

/// The view of an optional vector of options.
pub open spec fn opt_view<T>(o: Option<Vec<T>>) -> Option<Seq<T>> {
    match o {
        Option::Some(v) => Option::Some(v@),
        Option::None => Option::None,
    }
}

/// The character sequences of a sequence of strings.
pub open spec fn str_views(s: Seq<String>) -> Seq<Seq<char>> {
    s.map_values(|x: String| x@)
}

/// Whether one option string starts out checked: its characters are those of
/// a member of the requested checked set; an absent set checks nothing.
pub open spec fn spec_is_checked_str(checked: Option<Seq<String>>, item: Seq<char>) -> bool {
    match checked {
        Option::Some(c) => str_views(c).contains(item),
        Option::None => false,
    }
}

/// The option order a string selection prompt presents when the caller asks
/// for default position `k`: the item at `k` moved to the front, the rest in
/// their original order.
pub open spec fn spec_reorder<T>(options: Seq<T>, k: int) -> Seq<T> {
    seq![options[k]] + options.take(k) + options.skip(k + 1)
}

/// The default position a string selection prompt honors: the requested one
/// when present and in range, and 0 otherwise.
pub open spec fn effective_default(len: int, default_index: Option<usize>) -> int {
    match default_index {
        Option::Some(k) => if k < len {
            k as int
        } else {
            0
        },
        Option::None => 0,
    }
}

/// Facade over interactive terminal prompts: styled labels, default
/// resolution, and index mapping for single- and multi-selection.
pub struct Dialog;

/// Everything a single-selection prompt over an enumerable type hands to the
/// collaborator: the styled label, one display item per variant, the
/// pre-highlighted position, and the variants the reply maps back into.
pub struct SelectPlan<T> {
    pub label: String,
    pub style: Style,
    pub items: Vec<String>,
    pub options: Vec<T>,
    pub default_index: usize,
}

/// Everything a multi-selection prompt over an enumerable type hands to the
/// collaborator: the styled label, one display item per variant, one
/// pre-check flag per variant, and the variants the reply maps back into.
pub struct MultiSelectPlan<T> {
    pub label: String,
    pub style: Style,
    pub items: Vec<String>,
    pub options: Vec<T>,
    pub checked: Vec<bool>,
}

/// Everything a string single-selection prompt hands to the collaborator:
/// the styled label, the option strings in presentation order, and the
/// pre-highlighted position (always 0, since the default item is moved to
/// the front).
pub struct StrSelectPlan {
    pub label: String,
    pub style: Style,
    pub items: Vec<String>,
    pub default_index: usize,
}

/// Everything a string multi-selection prompt hands to the collaborator: the
/// styled label, the option strings in their original order, and one
/// pre-check flag per option.
pub struct StrMultiSelectPlan {
    pub label: String,
    pub style: Style,
    pub items: Vec<String>,
    pub checked: Vec<bool>,
}

impl Dialog {
    /// The index a selection prompt pre-highlights: the first occurrence of
    /// `default` among `options`, or 0 when `default` is absent or not an
    /// option.
    pub fn default_index<T: Enumerable>(options: &Vec<T>, default: &Option<T>) -> (i: usize)
        ensures
            is_default_index(options@, *default, i as int),
    {
        match default {
            Option::None => 0,
            Option::Some(d) => {
                let mut j: usize = 0;
                while j < options.len()
                    invariant
                        *default == Option::Some(*d),
                        j <= options@.len(),
                        forall|k: int| 0 <= k < j ==> options@[k] != *d,
                    decreases options@.len() - j,
                {
                    if options[j].same(d) {
                        proof {
                            assert(options@[j as int] == *d);
                            assert(has_match(options@, *d));
                        }
                        return j;
                    }
                    j += 1;
                }
                0
            },
        }
    }

    /// Whether `x` occurs in `v`, by value equality.
    fn contains_item<T: Enumerable>(v: &Vec<T>, x: &T) -> (b: bool)
        ensures
            b == v@.contains(*x),
    {
        let mut j: usize = 0;
        while j < v.len()
            invariant
                j <= v@.len(),
                forall|k: int| 0 <= k < j ==> v@[k] != *x,
            decreases v@.len() - j,
        {
            if v[j].same(x) {
                assert(v@[j as int] == *x);
                return true;
            }
            j += 1;
        }
        false
    }

    /// One flag per option: checked exactly when the option is a member of
    /// the requested checked set; an absent set checks nothing.
    pub fn checked_flags<T: Enumerable>(options: &Vec<T>, checked: &Option<Vec<T>>) -> (flags: Vec<bool>)
        ensures
            are_checked_flags(options@, opt_view(*checked), flags@),
    {
        let mut flags: Vec<bool> = Vec::new();
        let mut i: usize = 0;
        while i < options.len()
            invariant
                i <= options@.len(),
                flags@.len() == i,
                forall|k: int| 0 <= k < i
                    ==> #[trigger] flags@[k] == spec_is_checked(opt_view(*checked), options@[k]),
            decreases options@.len() - i,
        {
            let c = match checked {
                Option::Some(cv) => Self::contains_item(cv, &options[i]),
                Option::None => false,
            };
            flags.push(c);
            i += 1;
        }
        flags
    }

    /// The options a string selection prompt presents: the default item moved
    /// to the front, the rest in their original order. A requested default
    /// position that is out of range falls back to 0, which leaves the order
    /// unchanged; the prompt then pre-highlights position 0.
    pub fn reorder_options(options: &Vec<String>, default_index: Option<usize>) -> (r: Vec<String>)
        requires
            options@.len() > 0,
        ensures
            r@ == spec_reorder(options@, effective_default(options@.len() as int, default_index)),
    {
        let k: usize = match default_index {
            Option::Some(k) => if k < options.len() {
                k
            } else {
                0
            },
            Option::None => 0,
        };
        let mut r: Vec<String> = Vec::new();
        r.push(options[k].clone());
        let mut i: usize = 0;
        while i < k
            invariant
                k < options@.len(),
                i <= k,
                r@.len() == i + 1,
                r@[0] == options@[k as int],
                forall|j: int| 1 <= j <= i ==> r@[j] == options@[j - 1],
            decreases k - i,
        {
            r.push(options[i].clone());
            i += 1;
        }
        let mut m: usize = k + 1;
        while m < options.len()
            invariant
                k < options@.len(),
                k + 1 <= m <= options@.len(),
                r@.len() == m,
                r@[0] == options@[k as int],
                forall|j: int| 1 <= j <= k ==> r@[j] == options@[j - 1],
                forall|j: int| k < j < m ==> r@[j] == options@[j],
            decreases options@.len() - m,
        {
            r.push(options[m].clone());
            m += 1;
        }
        proof {
            assert(r@ =~= spec_reorder(options@, k as int));
        }
        r
    }

    /// Whether `x`'s characters are those of a member of `v`.
    fn contains_string(v: &Vec<String>, x: &String) -> (b: bool)
        ensures
            b == str_views(v@).contains(x@),
    {
        let mut j: usize = 0;
        while j < v.len()
            invariant
                j <= v@.len(),
                forall|k: int| 0 <= k < j ==> str_views(v@)[k] != x@,
            decreases v@.len() - j,
        {
            if v[j] == *x {
                proof {
                    assert(str_views(v@)[j as int] == x@);
                }
                return true;
            }
            proof {
                assert(str_views(v@)[j as int] == v@[j as int]@);
            }
            j += 1;
        }
        proof {
            assert(forall|k: int| 0 <= k < v@.len() ==> str_views(v@)[k] != x@);
        }
        false
    }

    /// One flag per option string: checked exactly when its characters are
    /// those of a member of the requested checked set; an absent set checks
    /// nothing.
    pub fn checked_flags_str(options: &Vec<String>, checked: &Option<Vec<String>>) -> (flags: Vec<bool>)
        ensures
            flags@.len() == options@.len(),
            forall|i: int| 0 <= i < options@.len()
                ==> #[trigger] flags@[i] == spec_is_checked_str(opt_view(*checked), options@[i]@),
    {
        let mut flags: Vec<bool> = Vec::new();
        let mut i: usize = 0;
        while i < options.len()
            invariant
                i <= options@.len(),
                flags@.len() == i,
                forall|k: int| 0 <= k < i
                    ==> #[trigger] flags@[k] == spec_is_checked_str(opt_view(*checked), options@[k]@),
            decreases options@.len() - i,
        {
            let c = match checked {
                Option::Some(cv) => Self::contains_string(cv, &options[i]),
                Option::None => false,
            };
            flags.push(c);
            i += 1;
        }
        flags
    }

    /// The value at the position the collaborator reports for a
    /// single-selection prompt.
    pub fn pick<T: Enumerable>(options: &Vec<T>, index: usize) -> (r: T)
        requires
            index < options@.len(),
        ensures
            r == options@[index as int],
    {
        options[index].duplicate()
    }

    /// The values at the positions the collaborator reports for a
    /// multi-selection prompt, in the reported order.
    pub fn pick_many<T: Enumerable>(options: &Vec<T>, indices: &Vec<usize>) -> (r: Vec<T>)
        requires
            forall|i: int| 0 <= i < indices@.len() ==> #[trigger] indices@[i] < options@.len(),
        ensures
            r@.len() == indices@.len(),
            forall|i: int| 0 <= i < indices@.len()
                ==> #[trigger] r@[i] == options@[indices@[i] as int],
    {
        let mut r: Vec<T> = Vec::new();
        let mut i: usize = 0;
        while i < indices.len()
            invariant
                i <= indices@.len(),
                r@.len() == i,
                forall|j: int| 0 <= j < indices@.len() ==> #[trigger] indices@[j] < options@.len(),
                forall|j: int| 0 <= j < i ==> #[trigger] r@[j] == options@[indices@[j] as int],
            decreases indices@.len() - i,
        {
            r.push(options[indices[i]].duplicate());
            i += 1;
        }
        r
    }

    /// The string at the position the collaborator reports for a string
    /// single-selection prompt.
    pub fn pick_str(options: &Vec<String>, index: usize) -> (r: String)
        requires
            index < options@.len(),
        ensures
            r == options@[index as int],
    {
        options[index].clone()
    }

    /// The strings at the positions the collaborator reports for a string
    /// multi-selection prompt, in the reported order.
    pub fn pick_many_str(options: &Vec<String>, indices: &Vec<usize>) -> (r: Vec<String>)
        requires
            forall|i: int| 0 <= i < indices@.len() ==> #[trigger] indices@[i] < options@.len(),
        ensures
            r@.len() == indices@.len(),
            forall|i: int| 0 <= i < indices@.len()
                ==> #[trigger] r@[i] == options@[indices@[i] as int],
    {
        let mut r: Vec<String> = Vec::new();
        let mut i: usize = 0;
        while i < indices.len()
            invariant
                i <= indices@.len(),
                r@.len() == i,
                forall|j: int| 0 <= j < indices@.len() ==> #[trigger] indices@[j] < options@.len(),
                forall|j: int| 0 <= j < i ==> #[trigger] r@[j] == options@[indices@[j] as int],
            decreases indices@.len() - i,
        {
            r.push(options[indices[i]].clone());
            i += 1;
        }
        r
    }

    /// The styled label for a prompt: the text rendered with the style that
    /// the composition rule resolves from the caller's requests. The
    /// rendering itself is delegated and nothing is claimed of its output.
    pub fn styled_label(text: &str, color: Option<Color>, is_bold: Option<bool>) -> String {
        let style = Style::resolve(color, is_bold);
        render_styled(text, &style)
    }

    /// One display item per option, in order.
    pub fn labels<T: Enumerable>(options: &Vec<T>) -> (items: Vec<String>)
        ensures
            items@.len() == options@.len(),
            forall|i: int| 0 <= i < options@.len()
                ==> #[trigger] items@[i]@ == options@[i].label_spec(),
    {
        let mut items: Vec<String> = Vec::new();
        let mut i: usize = 0;
        while i < options.len()
            invariant
                i <= options@.len(),
                items@.len() == i,
                forall|k: int| 0 <= k < i ==> #[trigger] items@[k]@ == options@[k].label_spec(),
            decreases options@.len() - i,
        {
            items.push(options[i].label());
            i += 1;
        }
        items
    }

    /// The plan for a single-selection prompt over an enumerable type: all
    /// variants in canonical order, their labels, the pre-highlighted
    /// position resolved from `default`, and the styled label.
    pub fn select_plan<T: Enumerable>(
        prompt: &str,
        default: Option<T>,
        color: Option<Color>,
        is_bold: Option<bool>,
    ) -> (p: SelectPlan<T>)
        ensures
            p.options@ == T::all_variants(),
            p.items@.len() == p.options@.len(),
            forall|i: int| 0 <= i < p.options@.len()
                ==> #[trigger] p.items@[i]@ == p.options@[i].label_spec(),
            is_default_index(p.options@, default, p.default_index as int),
            p.style == spec_resolve(color, is_bold),
    {
        let options = T::variants();
        let items = Self::labels(&options);
        let default_index = Self::default_index(&options, &default);
        let style = Style::resolve(color, is_bold);
        let label = render_styled(prompt, &style);
        SelectPlan { label, style, items, options, default_index }
    }

    /// The plan for a multi-selection prompt over an enumerable type: all
    /// variants in canonical order, their labels, one pre-check flag per
    /// variant resolved from `checked`, and the styled label.
    pub fn multi_select_plan<T: Enumerable>(
        prompt: &str,
        checked: Option<Vec<T>>,
        color: Option<Color>,
        is_bold: Option<bool>,
    ) -> (p: MultiSelectPlan<T>)
        ensures
            p.options@ == T::all_variants(),
            p.items@.len() == p.options@.len(),
            forall|i: int| 0 <= i < p.options@.len()
                ==> #[trigger] p.items@[i]@ == p.options@[i].label_spec(),
            are_checked_flags(p.options@, opt_view(checked), p.checked@),
            p.style == spec_resolve(color, is_bold),
    {
        let options = T::variants();
        let items = Self::labels(&options);
        let flags = Self::checked_flags(&options, &checked);
        let style = Style::resolve(color, is_bold);
        let label = render_styled(prompt, &style);
        MultiSelectPlan { label, style, items, options, checked: flags }
    }

    /// The plan for a string single-selection prompt: the options with the
    /// default item moved to the front, position 0 pre-highlighted, and the
    /// styled label. The presented order therefore differs from the caller's
    /// whenever the default position is not 0.
    pub fn select_str_plan(
        prompt: &str,
        options: &Vec<String>,
        default_index: Option<usize>,
        color: Option<Color>,
        is_bold: Option<bool>,
    ) -> (p: StrSelectPlan)
        requires
            options@.len() > 0,
        ensures
            p.items@ == spec_reorder(
                options@,
                effective_default(options@.len() as int, default_index),
            ),
            p.default_index == 0,
            p.style == spec_resolve(color, is_bold),
    {
        let items = Self::reorder_options(options, default_index);
        let style = Style::resolve(color, is_bold);
        let label = render_styled(prompt, &style);
        StrSelectPlan { label, style, items, default_index: 0 }
    }

    /// The plan for a string multi-selection prompt: the options in their
    /// original order, one pre-check flag per option resolved from
    /// `checked`, and the styled label.
    pub fn multi_select_str_plan(
        prompt: &str,
        options: &Vec<String>,
        checked: Option<Vec<String>>,
        color: Option<Color>,
        is_bold: Option<bool>,
    ) -> (p: StrMultiSelectPlan)
        ensures
            p.items@.len() == options@.len(),
            forall|i: int| 0 <= i < options@.len() ==> #[trigger] p.items@[i] == options@[i],
            p.checked@.len() == options@.len(),
            forall|i: int| 0 <= i < options@.len()
                ==> #[trigger] p.checked@[i] == spec_is_checked_str(opt_view(checked), options@[i]@),
            p.style == spec_resolve(color, is_bold),
    {
        let mut items: Vec<String> = Vec::new();
        let mut i: usize = 0;
        while i < options.len()
            invariant
                i <= options@.len(),
                items@.len() == i,
                forall|k: int| 0 <= k < i ==> #[trigger] items@[k] == options@[k],
            decreases options@.len() - i,
        {
            items.push(options[i].clone());
            i += 1;
        }
        let flags = Self::checked_flags_str(options, &checked);
        let style = Style::resolve(color, is_bold);
        let label = render_styled(prompt, &style);
        StrMultiSelectPlan { label, style, items, checked: flags }
    }

    /// What a text prompt returns once the user submits: the submitted text
    /// when it is non-empty, the pre-filled default when the submission is
    /// empty and a default exists, and nothing otherwise (the collaborator
    /// then asks again).
    pub fn resolve_submission(submitted: String, default: Option<String>) -> (r: Option<String>)
        ensures
            submitted@.len() > 0 ==> r == Option::Some(submitted),
            submitted@.len() == 0 ==> r == default,
    {
        if !submitted.as_str().is_empty() {
            Option::Some(submitted)
        } else {
            default
        }
    }
}

/// No state is carried between calls: the pre-highlight contract pins a
/// unique position, so two resolutions with identical options and an
/// identical default agree.
pub proof fn lemma_default_index_unique<T>(options: Seq<T>, default: Option<T>, i1: int, i2: int)
    requires
        is_default_index(options, default, i1),
        is_default_index(options, default, i2),
    ensures
        i1 == i2,
{
    match default {
        Option::None => {},
        Option::Some(d) => {
            if has_match(options, d) {
                if i1 < i2 {
                    assert(options[i1] != d);
                }
                if i2 < i1 {
                    assert(options[i2] != d);
                }
            }
        },
    }
}

/// No state is carried between calls: the pre-check contract pins every
/// flag, so two resolutions with identical options and an identical checked
/// set agree.
pub proof fn lemma_checked_flags_unique<T>(
    options: Seq<T>,
    checked: Option<Seq<T>>,
    f1: Seq<bool>,
    f2: Seq<bool>,
)
    requires
        are_checked_flags(options, checked, f1),
        are_checked_flags(options, checked, f2),
    ensures
        f1 == f2,
{
    assert(f1 =~= f2);
}

} // verus!
