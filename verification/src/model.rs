//! What a configuration handle has had attached to it, as plain sequences,
//! what each fluent operation adds to it, and what holds of the operations
//! taken together.

use crate::utils::{derive_builder_attr_text, field_path_text, joined, serde_attr_text, Text};
use vstd::prelude::*;

verus! {

/// One attachment: the path of a type or field, and the text attached to it.
pub type Entry = (Text, Text);

/// One group of fields of a type: the names of the fields, and the text that
/// all of them get.
pub type Group = (Seq<Text>, Text);

/// The attachments a configuration handle holds, in the order in which they
/// were attached, kept apart for types and for fields.
pub struct Attachments {
    pub types: Seq<Entry>,
    pub fields: Seq<Entry>,
}

/// `text` attached once to each of `paths`, in their order.
pub open spec fn each(paths: Seq<Text>, text: Text) -> Seq<Entry> {
    paths.map_values(|path: Text| (path, text))
}

/// What a family operation attaches to one path: `head`, and behind it,
/// where `extra` is present, the joined lines of `extra`.
pub open spec fn block(path: Text, head: Text, extra: Option<Seq<Text>>) -> Seq<Entry> {
    match extra {
        Some(lines) => seq![(path, head), (path, joined(lines))],
        None => seq![(path, head)],
    }
}

/// What a family operation attaches: the block of each of `paths`, in their
/// order.
pub open spec fn family(paths: Seq<Text>, head: Text, extra: Option<Seq<Text>>) -> Seq<Entry> {
    paths.map_values(|path: Text| block(path, head, extra)).flatten()
}

/// The text of one group attached to each of the group's fields of the type
/// at `path`.
pub open spec fn group_entries(path: Text, group: Group) -> Seq<Entry> {
    group.0.map_values(|field: Text| (field_path_text(path, field), group.1))
}

/// The entries of all `groups`, group after group.
pub open spec fn field_entries(path: Text, groups: Seq<Group>) -> Seq<Entry> {
    groups.map_values(|group: Group| group_entries(path, group)).flatten()
}

/// The texts attached to `path` among `entries`, in the order in which they
/// were attached.
pub open spec fn texts_at(entries: Seq<Entry>, path: Text) -> Seq<Text> {
    entries.filter(|entry: Entry| entry.0 == path).map_values(|entry: Entry| entry.1)
}

/// The texts of the block that a family operation attaches to one path.
pub open spec fn block_texts(head: Text, extra: Option<Seq<Text>>) -> Seq<Text> {
    match extra {
        Some(lines) => seq![head, joined(lines)],
        None => seq![head],
    }
}

impl Attachments {
    /// The joined `attributes` attached to each type in `paths`.
    pub open spec fn with_type_attributes(
        self,
        paths: Seq<Text>,
        attributes: Seq<Text>,
    ) -> Attachments {
        Attachments { types: self.types + each(paths, joined(attributes)), fields: self.fields }
    }

    /// The joined `attributes` attached to each field in `paths`.
    pub open spec fn with_field_attributes(
        self,
        paths: Seq<Text>,
        attributes: Seq<Text>,
    ) -> Attachments {
        Attachments { types: self.types, fields: self.fields + each(paths, joined(attributes)) }
    }

    /// As `with_type_attributes` where there are attributes, else nothing.
    pub open spec fn with_optional_type_attributes(
        self,
        paths: Seq<Text>,
        attributes: Option<Seq<Text>>,
    ) -> Attachments {
        match attributes {
            Some(lines) => self.with_type_attributes(paths, lines),
            None => self,
        }
    }

    /// As `with_field_attributes` where there are attributes, else nothing.
    pub open spec fn with_optional_field_attributes(
        self,
        paths: Seq<Text>,
        attributes: Option<Seq<Text>>,
    ) -> Attachments {
        match attributes {
            Some(lines) => self.with_field_attributes(paths, lines),
            None => self,
        }
    }

    /// A family operation: `head`, and `extra` where present, attached to
    /// each type in `paths`.
    pub open spec fn with_family(
        self,
        paths: Seq<Text>,
        head: Text,
        extra: Option<Seq<Text>>,
    ) -> Attachments {
        Attachments { types: self.types + family(paths, head, extra), fields: self.fields }
    }

    /// `head` attached to the type at `path`, and each group's text to the
    /// group's fields of that type.
    pub open spec fn with_fields_of(
        self,
        path: Text,
        head: Text,
        groups: Seq<Group>,
    ) -> Attachments {
        Attachments {
            types: self.types.push((path, head)),
            fields: self.fields + field_entries(path, groups),
        }
    }
}

/// One more path at the end adds that path's block at the end.
pub proof fn lemma_family_push(
    paths: Seq<Text>,
    path: Text,
    head: Text,
    extra: Option<Seq<Text>>,
)
    ensures
        family(paths.push(path), head, extra) == family(paths, head, extra) + block(
            path,
            head,
            extra,
        ),
{
    let blocks = |p: Text| block(p, head, extra);
    assert(paths.push(path).map_values(blocks) == paths.map_values(blocks).push(
        block(path, head, extra),
    ));
    paths.map_values(blocks).lemma_flatten_push(block(path, head, extra));
}

/// One more group at the end adds that group's entries at the end.
pub proof fn lemma_field_entries_push(path: Text, groups: Seq<Group>, group: Group)
    ensures
        field_entries(path, groups.push(group)) == field_entries(path, groups) + group_entries(
            path,
            group,
        ),
{
    let entries = |g: Group| group_entries(path, g);
    assert(groups.push(group).map_values(entries) == groups.map_values(entries).push(
        group_entries(path, group),
    ));
    groups.map_values(entries).lemma_flatten_push(group_entries(path, group));
}

/// On a single path a family operation attaches that path's block.
pub proof fn lemma_family_on_one_path(path: Text, head: Text, extra: Option<Seq<Text>>)
    ensures
        family(seq![path], head, extra) == block(path, head, extra),
{
    lemma_family_push(Seq::empty(), path, head, extra);
}

/// Entry by entry: without an extra, a family operation attaches the head to
/// each path; with one, it attaches to the path at place `i` the head at
/// place `2 * i` and the joined lines of the extra at place `2 * i + 1`.
pub proof fn lemma_family_entries(paths: Seq<Text>, head: Text, extra: Option<Seq<Text>>)
    ensures
        match extra {
            None => family(paths, head, extra) == each(paths, head),
            Some(lines) => {
                &&& family(paths, head, extra).len() == 2 * paths.len()
                &&& forall|i: int|
                    0 <= i < paths.len() ==> {
                        &&& family(paths, head, extra)[2 * i] == (paths[i], head)
                        &&& family(paths, head, extra)[2 * i + 1] == (paths[i], joined(lines))
                    }
            },
        },
    decreases paths.len(),
{
    if paths.len() > 0 {
        lemma_family_entries(paths.drop_last(), head, extra);
        lemma_family_push(paths.drop_last(), paths.last(), head, extra);
        assert(paths.drop_last().push(paths.last()) == paths);
    }
}

/// `with_type_attributes` keeps what was attached before and attaches behind
/// it the joined attributes to every path of the list, each once and in the
/// list's order; what is attached to fields stays as it is.
pub proof fn lemma_with_type_attributes(
    before: Attachments,
    paths: Seq<Text>,
    attributes: Seq<Text>,
)
    ensures
        ({
            let after = before.with_type_attributes(paths, attributes);
            &&& after.fields == before.fields
            &&& after.types.len() == before.types.len() + paths.len()
            &&& forall|i: int| 0 <= i < before.types.len() ==> after.types[i] == before.types[i]
            &&& forall|i: int|
                0 <= i < paths.len() ==> after.types[before.types.len() + i] == (
                    paths[i],
                    joined(attributes),
                )
        }),
{
}

/// `with_field_attributes` keeps what was attached before and attaches
/// behind it the joined attributes to every path of the list, each once and
/// in the list's order; what is attached to types stays as it is.
pub proof fn lemma_with_field_attributes(
    before: Attachments,
    paths: Seq<Text>,
    attributes: Seq<Text>,
)
    ensures
        ({
            let after = before.with_field_attributes(paths, attributes);
            &&& after.types == before.types
            &&& after.fields.len() == before.fields.len() + paths.len()
            &&& forall|i: int| 0 <= i < before.fields.len() ==> after.fields[i] == before.fields[i]
            &&& forall|i: int|
                0 <= i < paths.len() ==> after.fields[before.fields.len() + i] == (
                    paths[i],
                    joined(attributes),
                )
        }),
{
}

/// Without attributes the optional operations change nothing.
pub proof fn lemma_optional_without_attributes(before: Attachments, paths: Seq<Text>)
    ensures
        before.with_optional_type_attributes(paths, None) == before,
        before.with_optional_field_attributes(paths, None) == before,
{
}

/// With attributes the optional operations do what the plain ones do.
pub proof fn lemma_optional_with_attributes(
    before: Attachments,
    paths: Seq<Text>,
    attributes: Seq<Text>,
)
    ensures
        before.with_optional_type_attributes(paths, Some(attributes))
            == before.with_type_attributes(paths, attributes),
        before.with_optional_field_attributes(paths, Some(attributes))
            == before.with_field_attributes(paths, attributes),
{
}

/// With a single group, `with_fields_of` attaches the head to the type and
/// the group's text to each of the group's fields, once and in their order.
pub proof fn lemma_fields_of_one_group(
    before: Attachments,
    path: Text,
    head: Text,
    fields: Seq<Text>,
    text: Text,
)
    ensures
        ({
            let after = before.with_fields_of(path, head, seq![(fields, text)]);
            &&& after.types == before.types.push((path, head))
            &&& after.fields.len() == before.fields.len() + fields.len()
            &&& forall|i: int| 0 <= i < before.fields.len() ==> after.fields[i] == before.fields[i]
            &&& forall|j: int|
                0 <= j < fields.len() ==> after.fields[before.fields.len() + j] == (
                    field_path_text(path, fields[j]),
                    text,
                )
        }),
{
    lemma_field_entries_push(path, Seq::empty(), (fields, text));
}

/// Family operations compose in call order: after two of them what was
/// attached before comes first, then all that the first one attached, then
/// all that the second one attached, and the fields are as they were.
pub proof fn lemma_family_then_family(
    before: Attachments,
    first_paths: Seq<Text>,
    first_head: Text,
    first_extra: Option<Seq<Text>>,
    second_paths: Seq<Text>,
    second_head: Text,
    second_extra: Option<Seq<Text>>,
)
    ensures
        before.with_family(first_paths, first_head, first_extra).with_family(
            second_paths,
            second_head,
            second_extra,
        ) == (Attachments {
            types: before.types + family(first_paths, first_head, first_extra) + family(
                second_paths,
                second_head,
                second_extra,
            ),
            fields: before.fields,
        }),
{
}

/// What is attached to a path among two lists of entries, one behind the
/// other, is what the first list attaches to it followed by what the second
/// list attaches to it.
pub proof fn lemma_texts_at_concat(first: Seq<Entry>, second: Seq<Entry>, path: Text)
    ensures
        texts_at(first + second, path) == texts_at(first, path) + texts_at(second, path),
{
    Seq::filter_distributes_over_add(first, second, |entry: Entry| entry.0 == path);
}

/// The block of a path attaches its texts to that path and nothing to any
/// other path.
pub proof fn lemma_texts_at_block(path: Text, head: Text, extra: Option<Seq<Text>>, at: Text)
    ensures
        texts_at(block(path, head, extra), at) == if at == path {
            block_texts(head, extra)
        } else {
            Seq::empty()
        },
{
    reveal_with_fuel(Seq::filter, 3);
}

/// A family operation attaches nothing to a path that is not among its
/// paths.
pub proof fn lemma_texts_at_family_elsewhere(
    paths: Seq<Text>,
    head: Text,
    extra: Option<Seq<Text>>,
    at: Text,
)
    ensures
        !paths.contains(at) ==> texts_at(family(paths, head, extra), at) == Seq::<Text>::empty(),
    decreases paths.len(),
{
    if paths.len() == 0 {
        reveal(Seq::filter);
    } else if !paths.contains(at) {
        let rest = paths.drop_last();
        assert(rest.push(paths.last()) == paths);
        lemma_texts_at_family_elsewhere(rest, head, extra, at);
        lemma_family_push(rest, paths.last(), head, extra);
        lemma_texts_at_concat(family(rest, head, extra), block(paths.last(), head, extra), at);
        lemma_texts_at_block(paths.last(), head, extra, at);
    }
}

/// The serde family and then the builder family on one and the same path
/// leave both blocks on that path, the serde block before the builder block:
/// in the list as a whole, and among the texts of that path.
pub proof fn lemma_serde_then_derive_builder(
    before: Attachments,
    path: Text,
    ser: bool,
    de: bool,
    serde_extra: Option<Seq<Text>>,
    builder_extra: Option<Seq<Text>>,
)
    ensures
        ({
            let after = before.with_family(
                seq![path],
                serde_attr_text(ser, de),
                serde_extra,
            ).with_family(seq![path], derive_builder_attr_text(), builder_extra);
            &&& after.fields == before.fields
            &&& after.types == before.types + block(path, serde_attr_text(ser, de), serde_extra)
                + block(path, derive_builder_attr_text(), builder_extra)
            &&& texts_at(after.types, path) == texts_at(before.types, path) + block_texts(
                serde_attr_text(ser, de),
                serde_extra,
            ) + block_texts(derive_builder_attr_text(), builder_extra)
        }),
{
    let serde = block(path, serde_attr_text(ser, de), serde_extra);
    let builder = block(path, derive_builder_attr_text(), builder_extra);
    lemma_family_on_one_path(path, serde_attr_text(ser, de), serde_extra);
    lemma_family_on_one_path(path, derive_builder_attr_text(), builder_extra);
    lemma_texts_at_concat(before.types + serde, builder, path);
    lemma_texts_at_concat(before.types, serde, path);
    lemma_texts_at_block(path, serde_attr_text(ser, de), serde_extra, path);
    lemma_texts_at_block(path, derive_builder_attr_text(), builder_extra, path);
}

/// Two family operations do not depend on their order where they name
/// different paths: what is attached to a path that is not among the paths
/// of both is the same whichever of the two came first.
pub proof fn lemma_families_on_different_paths_commute(
    before: Attachments,
    first_paths: Seq<Text>,
    first_head: Text,
    first_extra: Option<Seq<Text>>,
    second_paths: Seq<Text>,
    second_head: Text,
    second_extra: Option<Seq<Text>>,
    at: Text,
)
    ensures
        !(first_paths.contains(at) && second_paths.contains(at)) ==> texts_at(
            before.with_family(first_paths, first_head, first_extra).with_family(
                second_paths,
                second_head,
                second_extra,
            ).types,
            at,
        ) == texts_at(
            before.with_family(second_paths, second_head, second_extra).with_family(
                first_paths,
                first_head,
                first_extra,
            ).types,
            at,
        ),
{
    let first = family(first_paths, first_head, first_extra);
    let second = family(second_paths, second_head, second_extra);
    lemma_texts_at_family_elsewhere(first_paths, first_head, first_extra, at);
    lemma_texts_at_family_elsewhere(second_paths, second_head, second_extra, at);
    lemma_texts_at_concat(before.types + first, second, at);
    lemma_texts_at_concat(before.types, first, at);
    lemma_texts_at_concat(before.types + second, first, at);
    lemma_texts_at_concat(before.types, second, at);
}

} // verus!
