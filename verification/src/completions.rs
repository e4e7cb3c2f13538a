//! Completions after a dot: the members of a struct, and the swizzles of a
//! vector.

use itertools::Itertools;
use vstd::arithmetic::power::pow;
use vstd::prelude::*;
use crate::inlay_hints::TextRange;
use crate::layout::{Field, StructData, component_count, components, find_struct, position_of_struct};
use crate::type_ref::TypeReference;

verus! {

#[derive(Debug, Clone, Copy, PartialEq, Eq, Hash, Structural)]
pub enum CompletionItemKind {
    Field,
}

/// What decides the place of a completion among the others.
#[derive(Debug, Clone, Copy, PartialEq, Eq, Hash, Structural)]
pub struct CompletionRelevance {
    /// The place of a swizzle among the swizzles.
    pub swizzle_index: Option<usize>,
}

/// A completion: the text that is offered, and the range that it replaces.
#[derive(Debug, PartialEq, Eq)]
pub struct CompletionItem {
    pub kind: CompletionItemKind,
    pub source_range: TextRange,
    pub label: String,
    pub relevance: CompletionRelevance,
}

/// A completion with its label as text.
pub struct CompletionItemView {
    pub kind: CompletionItemKind,
    pub source_range: TextRange,
    pub label: Seq<char>,
    pub relevance: CompletionRelevance,
}

impl View for CompletionItem {
    type V = CompletionItemView;

    open spec fn view(&self) -> CompletionItemView {
        CompletionItemView {
            kind: self.kind,
            source_range: self.source_range,
            label: self.label@,
            relevance: self.relevance,
        }
    }
}

/// Which letter stands at `position` in the word at `index`, among the words
/// of `length` letters over `base` letters: the digit at that position of
/// `index` written in that base with `length` digits.
pub open spec fn letter_at(index: int, base: int, length: nat, position: int) -> int {
    (index / pow(base, (length - 1 - position) as nat)) % base
}

/// The words of `length` letters, each letter one of `letters`, in the order
/// in which the last letter changes first.
pub open spec fn words<T>(letters: Seq<T>, length: nat) -> Seq<Seq<T>> {
    Seq::new(
        pow(letters.len() as int, length) as nat,
        |index: int|
            Seq::new(
                length,
                |position: int| letters[letter_at(index, letters.len() as int, length, position)],
            ),
    )
}

/// The cartesian product of `length` copies of `letters`, from
/// `multi_cartesian_product` of itertools. The contract claims that the
/// product holds every word of that length once, each as long as `length`,
/// in the order in which the last position runs through the letters first,
/// and that it is one empty word where `length` is zero. It is asked for
/// short words over few letters only, so that the product is small.
#[verifier::external_body]
fn cartesian_power<T: Copy>(letters: &Vec<T>, length: usize) -> (product: Vec<Vec<T>>)
    requires
        letters@.len() <= 4,
        length <= LONGEST_SWIZZLE,
    ensures
        product@.map_values(|word: Vec<T>| word@) == words(letters@, length as nat),
{
    std::iter::repeat_with(|| letters.iter().copied()).take(length).multi_cartesian_product().collect()
}

/// The letters of a word, one after the other, as one text.
pub open spec fn joined(word: Seq<Seq<char>>) -> Seq<char>
    decreases word.len(),
{
    if word.len() == 0 {
        Seq::empty()
    } else {
        joined(word.drop_last()) + word.last()
    }
}

/// The swizzles of `length` components, each component one of `names`.
pub open spec fn swizzles(names: Seq<Seq<char>>, length: nat) -> Seq<Seq<char>> {
    words(names, length).map_values(|word: Seq<Seq<char>>| joined(word))
}

/// The swizzles of one component up to `longest` components, the shorter
/// ones first.
pub open spec fn swizzles_up_to(names: Seq<Seq<char>>, longest: nat) -> Seq<Seq<char>>
    decreases longest,
{
    if longest == 0 {
        Seq::empty()
    } else {
        swizzles_up_to(names, (longest - 1) as nat) + swizzles(names, longest)
    }
}

/// The longest swizzle has four components.
pub const LONGEST_SWIZZLE: usize = 4;

/// The labels of the swizzles of a vector of `size` components, for the
/// first `count` of `sets`: set by set, the swizzles over the first `size`
/// names of the set.
pub open spec fn swizzle_labels(sets: Seq<Seq<Seq<char>>>, size: nat, count: nat) -> Seq<
    Seq<char>,
>
    decreases count,
{
    if count == 0 {
        Seq::empty()
    } else {
        swizzle_labels(sets, size, (count - 1) as nat) + swizzles_up_to(
            sets[count - 1].take(size as int),
            LONGEST_SWIZZLE as nat,
        )
    }
}

/// The names of a list, each as text.
pub open spec fn texts(names: Seq<&str>) -> Seq<Seq<char>> {
    names.map_values(|name: &str| name@)
}

/// The sets of names of a list, each name as text.
pub open spec fn texts_of_sets(sets: Seq<[&str; 4]>) -> Seq<Seq<Seq<char>>> {
    sets.map_values(|set: [&str; 4]| texts(set@))
}

/// The completion that offers the swizzle `label`, the one at `index` among
/// the swizzles.
pub open spec fn swizzle_item(source_range: TextRange, label: Seq<char>, index: int) -> CompletionItemView {
    CompletionItemView {
        kind: CompletionItemKind::Field,
        source_range,
        label,
        relevance: CompletionRelevance { swizzle_index: Some(index as usize) },
    }
}

/// The completions that offer the swizzles `labels`, one each and in this
/// order.
pub open spec fn swizzle_completions(source_range: TextRange, labels: Seq<Seq<char>>) -> Seq<
    CompletionItemView,
> {
    Seq::new(labels.len(), |index: int| swizzle_item(source_range, labels[index], index))
}

/// The completions of a list, each with its label as text.
pub open spec fn item_views(items: Seq<CompletionItem>) -> Seq<CompletionItemView> {
    items.map_values(|item: CompletionItem| item@)
}

fn join(word: &Vec<&str>) -> (label: String)
    ensures
        label@ == joined(texts(word@)),
{
    let mut label = String::new();
    let mut index: usize = 0;
    while index < word.len()
        invariant
            index <= word.len(),
            label@ == joined(texts(word@.take(index as int))),
        decreases word.len() - index,
    {
        label.append(word[index]);
        assert(texts(word@.take(index + 1)).drop_last() =~= texts(word@.take(index as int)));
        index += 1;
    }
    assert(word@.take(word.len() as int) =~= word@);
    label
}

/// A word over names, taken as texts, is the word over the texts.
proof fn lemma_texts_of_word(letters: Seq<&str>, length: nat, index: int)
    requires
        0 <= index < words(letters, length).len(),
    ensures
        words(texts(letters), length).len() == words(letters, length).len(),
        texts(words(letters, length)[index]) == words(texts(letters), length)[index],
{
    let base = letters.len() as int;
    assert forall|position: int| 0 <= position < length implies 0 <= #[trigger] letter_at(
        index,
        base,
        length,
        position,
    ) < base by {
        let quotient = index / pow(base, (length - 1 - position) as nat);
        if base == 0 {
            vstd::arithmetic::power::lemma0_pow(length);
        }
        assert(0 <= quotient % base < base) by (nonlinear_arith)
            requires
                base > 0,
        ;
    }
    assert(texts(words(letters, length)[index]) =~= words(texts(letters), length)[index]);
}

/// The completions that offer the swizzles of a vector of `size` components.
/// Each of `sets` names the four components; the swizzles of one set come
/// before those of the next, and within a set the shorter before the longer.
pub fn swizzle_items(size: usize, source_range: TextRange, sets: &[[&str; 4]]) -> (items: Vec<
    CompletionItem,
>)
    requires
        size <= 4,
    ensures
        item_views(items@) == swizzle_completions(
            source_range,
            swizzle_labels(texts_of_sets(sets@), size as nat, sets@.len()),
        ),
{
    let mut items: Vec<CompletionItem> = Vec::new();
    let mut set: usize = 0;
    let ghost all = texts_of_sets(sets@);
    assert(item_views(items@) =~= swizzle_completions(source_range, swizzle_labels(all, size as nat, 0)));
    while set < sets.len()
        invariant
            set <= sets.len(),
            size <= 4,
            all == texts_of_sets(sets@),
            item_views(items@) == swizzle_completions(
                source_range,
                swizzle_labels(all, size as nat, set as nat),
            ),
        decreases sets.len() - set,
    {
        let mut letters: Vec<&str> = Vec::new();
        let mut letter: usize = 0;
        while letter < size
            invariant
                letter <= size <= 4,
                set < sets.len(),
                letters@ == sets@[set as int]@.take(letter as int),
            decreases size - letter,
        {
            letters.push(sets[set][letter]);
            assert(sets@[set as int]@.take(letter + 1) =~= sets@[set as int]@.take(
                letter as int,
            ).push(sets@[set as int]@[letter as int]));
            letter += 1;
        }
        let ghost names = texts(letters@);
        assert(names =~= all[set as int].take(size as int));
        let ghost before = swizzle_labels(all, size as nat, set as nat);
        let mut length: usize = 1;
        assert(before + swizzles_up_to(names, 0) =~= before);
        while length <= LONGEST_SWIZZLE
            invariant
                1 <= length <= LONGEST_SWIZZLE + 1,
                letters@.len() <= 4,
                names == texts(letters@),
                item_views(items@) == swizzle_completions(
                    source_range,
                    before + swizzles_up_to(names, (length - 1) as nat),
                ),
            decreases LONGEST_SWIZZLE + 1 - length,
        {
            let product = cartesian_power(&letters, length);
            let ghost shorter = before + swizzles_up_to(names, (length - 1) as nat);
            let ghost these = swizzles(names, length as nat);
            let mut index: usize = 0;
            assert(product@.len() == product@.map_values(|word: Vec<&str>| word@).len());
            proof {
                if product@.len() > 0 {
                    lemma_texts_of_word(letters@, length as nat, 0);
                } else {
                    assert(pow(letters@.len() as int, length as nat) == pow(
                        names.len() as int,
                        length as nat,
                    ));
                }
            }
            assert(shorter + these.take(0) =~= shorter);
            while index < product.len()
                invariant
                    index <= product.len(),
                    product@.len() == these.len(),
                    names == texts(letters@),
                    these == swizzles(names, length as nat),
                    product@.map_values(|word: Vec<&str>| word@) == words(letters@, length as nat),
                    item_views(items@) == swizzle_completions(
                        source_range,
                        shorter + these.take(index as int),
                    ),
                decreases product.len() - index,
            {
                let label = join(&product[index]);
                let ghost offered = shorter + these.take(index as int);
                proof {
                    assert(product@.map_values(|word: Vec<&str>| word@)[index as int]
                        == product@[index as int]@);
                    lemma_texts_of_word(letters@, length as nat, index as int);
                    assert(label@ == these[index as int]);
                }
                let place = items.len();
                let ghost earlier = items@;
                assert(item_views(earlier).len() == earlier.len());
                assert(swizzle_completions(source_range, offered).len() == offered.len());
                items.push(
                    CompletionItem {
                        kind: CompletionItemKind::Field,
                        source_range,
                        label,
                        relevance: CompletionRelevance { swizzle_index: Some(place) },
                    },
                );
                assert(shorter + these.take(index + 1) =~= offered.push(these[index as int]));
                assert forall|i: int| 0 <= i < items@.len() implies item_views(items@)[i]
                    == swizzle_completions(source_range, offered.push(these[index as int]))[i] by {
                    if i < place {
                        assert(item_views(earlier)[i] == swizzle_completions(
                            source_range,
                            offered,
                        )[i]);
                    }
                }
                assert(item_views(items@) =~= swizzle_completions(
                    source_range,
                    offered.push(these[index as int]),
                ));
                index += 1;
            }
            assert(these.take(index as int) =~= these);
            assert(shorter + these =~= before + swizzles_up_to(names, length as nat));
            length += 1;
        }
        set += 1;
    }
    items
}

/// Where in the source a completion is asked for.
#[derive(Debug, PartialEq, Eq)]
pub enum ImmediateLocation {
    /// After the dot of a field access; `receiver` is the type of the
    /// expression before the dot, where it is known.
    FieldAccess { receiver: Option<TypeReference> },
    /// Anywhere else.
    Other,
}

/// The two sets of names for the components of a vector.
pub open spec fn component_sets() -> Seq<Seq<Seq<char>>> {
    seq![seq!["x"@, "y"@, "z"@, "w"@], seq!["r"@, "g"@, "b"@, "a"@]]
}

/// The completion that offers a member of a struct.
pub open spec fn field_item(source_range: TextRange, field: Field) -> CompletionItemView {
    CompletionItemView {
        kind: CompletionItemKind::Field,
        source_range,
        label: field.name@,
        relevance: CompletionRelevance { swizzle_index: None },
    }
}

/// The completions that offer the members of a struct, in declaration order.
pub open spec fn field_completions(source_range: TextRange, fields: Seq<Field>) -> Seq<
    CompletionItemView,
> {
    Seq::new(fields.len(), |index: int| field_item(source_range, fields[index]))
}

/// What is offered after an expression of type `receiver` and a dot: the
/// swizzles of a vector, and the members of a struct, in declaration order.
/// `None` for any other type.
pub open spec fn dot_completions(
    receiver: TypeReference,
    source_range: TextRange,
    table: Seq<StructData>,
) -> Option<Seq<CompletionItemView>> {
    match receiver {
        TypeReference::Vec(vec) => Some(
            swizzle_completions(
                source_range,
                swizzle_labels(component_sets(), component_count(vec.size), 2),
            ),
        ),
        TypeReference::Path(name) => match position_of_struct(table, name@) {
            Some(position) => Some(field_completions(source_range, table[position].fields@)),
            None => None,
        },
        _ => None,
    }
}

/// What is offered at `location`: something only after the dot of a field
/// access whose receiver has a type that offers something.
pub open spec fn completions_at(
    location: Option<ImmediateLocation>,
    source_range: TextRange,
    table: Seq<StructData>,
) -> Option<Seq<CompletionItemView>> {
    match location {
        Some(ImmediateLocation::FieldAccess { receiver: Some(receiver) }) => dot_completions(
            receiver,
            source_range,
            table,
        ),
        Some(ImmediateLocation::FieldAccess { receiver: None }) => None,
        _ => Some(Seq::empty()),
    }
}

/// Adds to `accumulator` what is offered after a dot: the swizzles of a
/// vector, or the members of a struct. Returns `None`, and adds nothing,
/// where the type before the dot is not known or offers nothing.
pub fn complete_dot(
    accumulator: &mut Vec<CompletionItem>,
    location: &Option<ImmediateLocation>,
    source_range: TextRange,
    table: &Vec<StructData>,
) -> (done: Option<()>)
    ensures
        match completions_at(*location, source_range, table@) {
            Some(items) => done is Some && item_views(final(accumulator)@) == item_views(
                old(accumulator)@,
            ) + items,
            None => done is None && item_views(final(accumulator)@) == item_views(
                old(accumulator)@,
            ),
        },
{
    assert(item_views(accumulator@) =~= item_views(accumulator@) + Seq::<
        CompletionItemView,
    >::empty());
    let receiver = match location {
        Some(ImmediateLocation::FieldAccess { receiver }) => match receiver {
            Some(receiver) => receiver,
            None => {
                return None;
            },
        },
        _ => {
            return Some(());
        },
    };
    match receiver {
        TypeReference::Vec(vec) => {
            let size = components(vec.size) as usize;
            let sets: [[&str; 4]; 2] = [["x", "y", "z", "w"], ["r", "g", "b", "a"]];
            let mut swizzle = swizzle_items(size, source_range, sets.as_slice());
            assert(texts_of_sets(sets@) =~= component_sets()) by {
                assert(texts(sets@[0]@) =~= component_sets()[0]);
                assert(texts(sets@[1]@) =~= component_sets()[1]);
            }
            let ghost before = accumulator@;
            let ghost added = swizzle@;
            accumulator.append(&mut swizzle);
            assert(item_views(accumulator@) =~= item_views(before) + item_views(added));
        },
        TypeReference::Path(name) => {
            let position = match find_struct(table, name) {
                Some(position) => position,
                None => {
                    return None;
                },
            };
            let fields = &table[position].fields;
            let mut index: usize = 0;
            while index < fields.len()
                invariant
                    index <= fields.len(),
                    item_views(accumulator@) == item_views(old(accumulator)@) + field_completions(
                        source_range,
                        fields@.take(index as int),
                    ),
                decreases fields.len() - index,
            {
                let ghost before = accumulator@;
                accumulator.push(
                    CompletionItem {
                        kind: CompletionItemKind::Field,
                        source_range,
                        label: fields[index].name.clone(),
                        relevance: CompletionRelevance { swizzle_index: None },
                    },
                );
                index += 1;
                assert(item_views(accumulator@) =~= item_views(before).push(
                    field_item(source_range, fields@[index - 1]),
                ));
                assert(field_completions(source_range, fields@.take(index as int))
                    =~= field_completions(source_range, fields@.take(index - 1)).push(
                    field_item(source_range, fields@[index - 1]),
                ));
            }
            assert(fields@.take(index as int) =~= fields@);
        },
        _ => {
            return None;
        },
    }
    Some(())
}

} // verus!
