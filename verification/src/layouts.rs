//! The keyboard layouts on offer, derived from the locales on offer.
//!
//! Every locale whose language has a layout contributes that layout's code
//! with the locale's name. The list is ordered by code, holds each code once,
//! and keeps for a code the name of the first locale that led to it.

use crate::locale::{keyboard_layout_of, locale_to_keyboard_layout, options_view, Options};
use crate::seqs::{first_where, lemma_first_where, lemma_first_where_unique, lemma_prefix_step};
use crate::text::{
    lemma_lex_less_irreflexive, lemma_lex_less_total, lemma_lex_less_transitive, lex_less,
    str_less,
};
use vstd::prelude::*;

verus! {

/// Each code comes before the codes behind it, so no code occurs twice.
pub open spec fn strictly_sorted(list: Options) -> bool {
    forall|i: int, j: int|
        #![trigger list[i], list[j]]
        0 <= i < j < list.len() ==> lex_less(list[i].0, list[j].0)
}

/// Whether the list holds an entry for `code`.
pub open spec fn has_code(list: Options, code: Seq<char>) -> bool {
    exists|i: int| 0 <= i < list.len() && (#[trigger] list[i]).0 == code
}

/// Having a code that does not come before `code`.
pub open spec fn not_before(code: Seq<char>) -> spec_fn((Seq<char>, Seq<char>)) -> bool {
    |entry: (Seq<char>, Seq<char>)| !lex_less(entry.0, code)
}

/// The number of leading entries whose code comes before `code`.
pub open spec fn insert_position(list: Options, code: Seq<char>) -> int {
    first_where(list, not_before(code))
}

/// The list with `entry` put in its place by code, or the list as it is
/// where the code at that place is the entry's own.
pub open spec fn insert_entry(list: Options, entry: (Seq<char>, Seq<char>)) -> Options {
    let k = insert_position(list, entry.0);
    if k < list.len() && list[k].0 == entry.0 {
        list
    } else {
        list.insert(k, entry)
    }
}

/// The layouts derived from a list of locales, taken one locale at a time.
pub open spec fn available_layouts(locales: Options) -> Options
    decreases locales.len(),
{
    if locales.len() == 0 {
        Seq::empty()
    } else {
        let rest = available_layouts(locales.drop_last());
        match keyboard_layout_of(locales.last().0) {
            Some(code) => insert_entry(rest, (code, locales.last().1)),
            None => rest,
        }
    }
}

/// Whether `j` is the first locale of the list that leads to layout `code`.
pub open spec fn is_first_locale_for(locales: Options, code: Seq<char>, j: int) -> bool {
    &&& 0 <= j < locales.len()
    &&& keyboard_layout_of(locales[j].0) == Some(code)
    &&& forall|k: int| 0 <= k < j ==> keyboard_layout_of((#[trigger] locales[k]).0) != Some(code)
}

/// Whether the entry carries the name of the first locale of the list that
/// leads to the entry's code.
pub open spec fn names_first_locale(locales: Options, entry: (Seq<char>, Seq<char>)) -> bool {
    exists|j: int| #[trigger] is_first_locale_for(locales, entry.0, j) && entry.1 == locales[j].1
}

/// In an ordered list a code is held exactly when it stands at its place.
pub proof fn lemma_has_code_at_position(list: Options, code: Seq<char>)
    requires
        strictly_sorted(list),
    ensures
        has_code(list, code) <==> (insert_position(list, code) < list.len() && list[insert_position(
            list,
            code,
        )].0 == code),
{
    lemma_first_where(list, not_before(code));
    let k = insert_position(list, code);
    if has_code(list, code) {
        let i = choose|i: int| 0 <= i < list.len() && (#[trigger] list[i]).0 == code;
        lemma_lex_less_irreflexive(code);
        if i < k {
            assert(lex_less(list[i].0, code));
        } else if i > k {
            assert(lex_less(list[k].0, list[i].0));
        }
    }
}

/// Putting an entry into an ordered list leaves it ordered, adds the
/// entry's code to the codes held, and changes no entry that was there.
pub proof fn lemma_insert_entry(list: Options, entry: (Seq<char>, Seq<char>))
    requires
        strictly_sorted(list),
    ensures
        strictly_sorted(insert_entry(list, entry)),
        forall|c: Seq<char>|
            has_code(insert_entry(list, entry), c) <==> (c == entry.0 || has_code(list, c)),
        forall|i: int|
            0 <= i < list.len() ==> insert_entry(list, entry).contains(#[trigger] list[i]),
        forall|i: int|
            0 <= i < insert_entry(list, entry).len() ==> list.contains(
                #[trigger] insert_entry(list, entry)[i],
            ) || (insert_entry(list, entry)[i] == entry && !has_code(list, entry.0)),
{
    let code = entry.0;
    let k = insert_position(list, code);
    let out = insert_entry(list, entry);
    lemma_first_where(list, not_before(code));
    lemma_has_code_at_position(list, code);
    if k < list.len() && list[k].0 == code {
        assert(out == list);
        assert forall|c: Seq<char>| has_code(out, c) <==> (c == entry.0 || has_code(list, c)) by {
            if c == entry.0 {
                assert(list[k].0 == c);
            }
        }
        assert forall|i: int| 0 <= i < list.len() implies out.contains(#[trigger] list[i]) by {
            assert(out[i] == list[i]);
        }
        assert forall|i: int| 0 <= i < out.len() implies list.contains(#[trigger] out[i]) by {
            assert(list[i] == out[i]);
        }
    } else {
        assert(out == list.insert(k, entry));
        assert(out.len() == list.len() + 1);
        assert(out[k] == entry);
        assert forall|i: int| 0 <= i < k implies out[i] == list[i] by {}
        assert forall|i: int| k < i < out.len() implies out[i] == list[i - 1] by {}
        assert forall|j: int| k <= j < list.len() implies lex_less(code, (#[trigger] list[j]).0) by {
            lemma_lex_less_total(code, list[k].0);
            if j > k {
                assert(lex_less(list[k].0, list[j].0));
                lemma_lex_less_transitive(code, list[k].0, list[j].0);
            }
        }
        assert forall|i: int, j: int|
            #![trigger out[i], out[j]]
            0 <= i < j < out.len() implies lex_less(out[i].0, out[j].0) by {
            if j < k {
                assert(lex_less(list[i].0, list[j].0));
            } else if j == k {
                assert(lex_less(list[i].0, code));
            } else if i < k {
                assert(lex_less(list[i].0, list[j - 1].0));
            } else if i == k {
                assert(lex_less(code, list[j - 1].0));
            } else {
                assert(lex_less(list[i - 1].0, list[j - 1].0));
            }
        }
        assert forall|c: Seq<char>| has_code(out, c) <==> (c == entry.0 || has_code(list, c)) by {
            if c == entry.0 {
                assert(out[k].0 == c);
            }
            if has_code(list, c) {
                let i = choose|i: int| 0 <= i < list.len() && (#[trigger] list[i]).0 == c;
                if i < k {
                    assert(out[i].0 == c);
                } else {
                    assert(out[i + 1].0 == c);
                }
            }
            if has_code(out, c) && c != entry.0 {
                let i = choose|i: int| 0 <= i < out.len() && (#[trigger] out[i]).0 == c;
                if i < k {
                    assert(list[i].0 == c);
                } else {
                    assert(list[i - 1].0 == c);
                }
            }
        }
        assert forall|i: int| 0 <= i < list.len() implies out.contains(#[trigger] list[i]) by {
            if i < k {
                assert(out[i] == list[i]);
            } else {
                assert(out[i + 1] == list[i]);
            }
        }
        assert forall|i: int| 0 <= i < out.len() implies list.contains(#[trigger] out[i]) || (out[i]
            == entry && !has_code(list, entry.0)) by {
            if i < k {
                assert(list[i] == out[i]);
            } else if i > k {
                assert(list[i - 1] == out[i]);
            }
        }
    }
}

/// The list of layouts is ordered by code without repeats; each of its
/// entries carries the name of the first locale that leads to its code; and
/// every layout that some locale leads to is in it.
pub proof fn lemma_available_layouts(locales: Options)
    ensures
        strictly_sorted(available_layouts(locales)),
        forall|i: int|
            0 <= i < available_layouts(locales).len() ==> names_first_locale(
                locales,
                #[trigger] available_layouts(locales)[i],
            ),
        forall|j: int|
            0 <= j < locales.len() && keyboard_layout_of((#[trigger] locales[j]).0) is Some
                ==> has_code(available_layouts(locales), keyboard_layout_of(locales[j].0)->0),
    decreases locales.len(),
{
    let out = available_layouts(locales);
    if locales.len() > 0 {
        let init = locales.drop_last();
        let rest = available_layouts(init);
        let last = locales.last();
        let n = locales.len() - 1;
        lemma_available_layouts(init);
        assert forall|k: int| 0 <= k < n implies init[k] == locales[k] by {}
        match keyboard_layout_of(last.0) {
            Some(code) => {
                let entry = (code, last.1);
                lemma_insert_entry(rest, entry);
                assert(out == insert_entry(rest, entry));
                assert forall|i: int| 0 <= i < out.len() implies names_first_locale(
                    locales,
                    #[trigger] out[i],
                ) by {
                    if rest.contains(out[i]) {
                        let r = choose|r: int| 0 <= r < rest.len() && rest[r] == out[i];
                        assert(names_first_locale(init, rest[r]));
                        let j = choose|j: int|
                            #[trigger] is_first_locale_for(init, rest[r].0, j) && rest[r].1
                                == init[j].1;
                        assert(is_first_locale_for(locales, out[i].0, j));
                    } else {
                        assert(out[i] == entry && !has_code(rest, code));
                        assert forall|k: int| 0 <= k < n implies keyboard_layout_of(
                            (#[trigger] locales[k]).0,
                        ) != Some(code) by {
                            if keyboard_layout_of(init[k].0) == Some(code) {
                                assert(has_code(rest, keyboard_layout_of(init[k].0)->0));
                            }
                        }
                        assert(is_first_locale_for(locales, out[i].0, n));
                    }
                }
                assert forall|j: int|
                    0 <= j < locales.len() && keyboard_layout_of(
                        (#[trigger] locales[j]).0,
                    ) is Some implies has_code(out, keyboard_layout_of(locales[j].0)->0) by {
                    let c = keyboard_layout_of(locales[j].0)->0;
                    if j < n {
                        assert(init[j] == locales[j]);
                        assert(has_code(rest, c));
                    } else {
                        assert(c == entry.0);
                    }
                    assert(has_code(insert_entry(rest, entry), c) <==> (c == entry.0 || has_code(
                        rest,
                        c,
                    )));
                }
            },
            None => {
                assert(out == rest);
                assert forall|i: int| 0 <= i < out.len() implies names_first_locale(
                    locales,
                    #[trigger] out[i],
                ) by {
                    assert(names_first_locale(init, rest[i]));
                    let j = choose|j: int|
                        #[trigger] is_first_locale_for(init, rest[i].0, j) && rest[i].1
                            == init[j].1;
                    assert(is_first_locale_for(locales, out[i].0, j));
                }
                assert forall|j: int|
                    0 <= j < locales.len() && keyboard_layout_of(
                        (#[trigger] locales[j]).0,
                    ) is Some implies has_code(out, keyboard_layout_of(locales[j].0)->0) by {
                    assert(j < n);
                    assert(has_code(rest, keyboard_layout_of(init[j].0)->0));
                }
            },
        }
    }
}

/// The place of `code` in an ordered list of options.
fn position_for(layouts: &Vec<(String, String)>, code: &str) -> (k: usize)
    ensures
        k == insert_position(options_view(layouts@), code@),
{
    let n: usize = layouts.len();
    let mut k: usize = 0;
    while k < n
        invariant
            n == layouts@.len(),
            k <= n,
            forall|j: int| 0 <= j < k ==> lex_less((#[trigger] options_view(layouts@)[j]).0, code@),
        decreases n - k,
    {
        if !str_less(layouts[k].0.as_str(), code) {
            proof {
                lemma_first_where_unique(options_view(layouts@), not_before(code@), k as int);
            }
            return k;
        }
        k += 1;
    }
    proof {
        lemma_first_where_unique(options_view(layouts@), not_before(code@), n as int);
    }
    n
}

/// Puts a layout into the ordered list unless its code is there already.
fn insert_layout(layouts: &mut Vec<(String, String)>, code: String, name: String)
    ensures
        options_view(final(layouts)@) == insert_entry(options_view(old(layouts)@), (code@, name@)),
{
    let k: usize = position_for(layouts, code.as_str());
    proof {
        lemma_first_where(options_view(layouts@), not_before(code@));
    }
    if k < layouts.len() && layouts[k].0 == code {
        return ;
    }
    let ghost before = options_view(layouts@);
    let ghost entry = (code@, name@);
    layouts.insert(k, (code, name));
    assert(options_view(layouts@) =~= before.insert(k as int, entry));
}

/// The keyboard layouts on offer for the given locales: each a layout code
/// with the name of the first locale that leads to it, in the order of the
/// codes.
pub fn get_available_keyboard_layouts(available_locales: &Vec<(String, String)>) -> (layouts: Vec<
    (String, String),
>)
    ensures
        options_view(layouts@) == available_layouts(options_view(available_locales@)),
{
    let ghost locales = options_view(available_locales@);
    let mut layouts: Vec<(String, String)> = Vec::new();
    let n: usize = available_locales.len();
    let mut i: usize = 0;
    assert(locales.subrange(0, 0) =~= Seq::empty());
    while i < n
        invariant
            n == available_locales@.len(),
            i <= n,
            locales == options_view(available_locales@),
            options_view(layouts@) == available_layouts(locales.subrange(0, i as int)),
        decreases n - i,
    {
        proof {
            lemma_prefix_step(locales, i as int);
        }
        let locale = &available_locales[i];
        match locale_to_keyboard_layout(locale.0.as_str()) {
            Some(code) => {
                insert_layout(&mut layouts, code, locale.1.clone());
            },
            None => {},
        }
        i += 1;
    }
    assert(locales.subrange(0, n as int) =~= locales);
    layouts
}

} // verus!
