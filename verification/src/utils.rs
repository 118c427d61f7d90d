//! The catalog of attribute texts, and the two ways in which the fluent
//! operations put texts together: lines joined into one attribute, and a
//! type's path extended to the path of one of its fields.

use vstd::prelude::*;

verus! {

/// A text as contracts see it: the characters of a `str` or `String`.
pub type Text = Seq<char>;

/// The serde derive line for each choice of the two switches.
pub open spec fn serde_attr_text(ser: bool, de: bool) -> Text {
    if ser && de {
        "#[derive(serde::Serialize, serde::Deserialize)]"@
    } else if ser {
        "#[derive(serde::Serialize)]"@
    } else if de {
        "#[derive(serde::Deserialize)]"@
    } else {
        Seq::empty()
    }
}

/// The two lines that switch on `serde_with` for a type.
pub open spec fn serde_as_attr_text() -> Text {
    "#[serde_with::serde_as]\n#[serde_with::skip_serializing_none]"@
}

/// The derive line for `sqlx::Type`.
pub open spec fn sqlx_type_attr_text() -> Text {
    "#[derive(sqlx::Type)]"@
}

/// The derive line for `sqlx::FromRow`.
pub open spec fn sqlx_from_row_attr_text() -> Text {
    "#[derive(sqlx::FromRow)]"@
}

/// The two lines that derive a builder whose setters convert their argument,
/// strip `Option`, and fall back to the default.
pub open spec fn derive_builder_attr_text() -> Text {
    "#[derive(derive_builder::Builder)]\n#[builder(setter(into, strip_option), default)]"@
}

/// `lines` with a newline between neighbours: none before the first line,
/// none behind the last.
pub open spec fn joined(lines: Seq<Text>) -> Text
    decreases lines.len(),
{
    if lines.len() == 0 {
        Seq::empty()
    } else if lines.len() == 1 {
        lines[0]
    } else {
        joined(lines.drop_last()) + seq!['\n'] + lines.last()
    }
}

/// The path of the field `field` of the type at `path`.
pub open spec fn field_path_text(path: Text, field: Text) -> Text {
    path + seq!['.'] + field
}

/// Derive line for serde: serialization, deserialization, both, or, with both
/// switches off, no text at all.
pub fn serde_attr(ser: bool, de: bool) -> (attr: &'static str)
    ensures
        attr@ == serde_attr_text(ser, de),
{
    match (ser, de) {
        (true, true) => "#[derive(serde::Serialize, serde::Deserialize)]",
        (true, false) => "#[derive(serde::Serialize)]",
        (false, true) => "#[derive(serde::Deserialize)]",
        (false, false) => {
            proof {
                reveal_strlit("");
            }
            ""
        },
    }
}

/// The four texts of `serde_attr` are four different texts: each tells which
/// switches were on.
pub proof fn lemma_serde_attr_texts_differ(ser: bool, de: bool, other_ser: bool, other_de: bool)
    ensures
        serde_attr_text(ser, de) == serde_attr_text(other_ser, other_de) ==> ser == other_ser
            && de == other_de,
{
    reveal_strlit("#[derive(serde::Serialize, serde::Deserialize)]");
    reveal_strlit("#[derive(serde::Serialize)]");
    reveal_strlit("#[derive(serde::Deserialize)]");
    assert(serde_attr_text(true, true).len() == 47);
    assert(serde_attr_text(true, false).len() == 27);
    assert(serde_attr_text(false, true).len() == 29);
    assert(serde_attr_text(false, false).len() == 0);
}

/// Attribute lines that enable `serde_with` on a type and leave out fields
/// that are `None` when serializing.
pub fn serde_as_attr() -> (attr: &'static str)
    ensures
        attr@ == serde_as_attr_text(),
{
    "#[serde_with::serde_as]\n#[serde_with::skip_serializing_none]"
}

/// The text of `serde_as_attr` is its two attribute lines, joined.
pub proof fn lemma_serde_as_attr_is_two_lines()
    ensures
        serde_as_attr_text() == joined(
            seq!["#[serde_with::serde_as]"@, "#[serde_with::skip_serializing_none]"@],
        ),
{
    reveal_strlit("#[serde_with::serde_as]\n#[serde_with::skip_serializing_none]");
    reveal_strlit("#[serde_with::serde_as]");
    reveal_strlit("#[serde_with::skip_serializing_none]");
    let lines = seq!["#[serde_with::serde_as]"@, "#[serde_with::skip_serializing_none]"@];
    assert(joined(lines.drop_last()) == "#[serde_with::serde_as]"@);
}

/// Derive line for `sqlx::Type`.
pub fn sqlx_type_attr() -> (attr: &'static str)
    ensures
        attr@ == sqlx_type_attr_text(),
{
    "#[derive(sqlx::Type)]"
}

/// Derive line for `sqlx::FromRow`.
pub fn sqlx_from_row_attr() -> (attr: &'static str)
    ensures
        attr@ == sqlx_from_row_attr_text(),
{
    "#[derive(sqlx::FromRow)]"
}

/// Attribute lines that derive `derive_builder::Builder` with converting,
/// option-stripping, defaulting setters.
pub fn derive_builder_attr() -> (attr: &'static str)
    ensures
        attr@ == derive_builder_attr_text(),
{
    "#[derive(derive_builder::Builder)]\n#[builder(setter(into, strip_option), default)]"
}

/// The text of `derive_builder_attr` is its two attribute lines, joined.
pub proof fn lemma_derive_builder_attr_is_two_lines()
    ensures
        derive_builder_attr_text() == joined(
            seq![
                "#[derive(derive_builder::Builder)]"@,
                "#[builder(setter(into, strip_option), default)]"@,
            ],
        ),
{
    reveal_strlit(
        "#[derive(derive_builder::Builder)]\n#[builder(setter(into, strip_option), default)]",
    );
    reveal_strlit("#[derive(derive_builder::Builder)]");
    reveal_strlit("#[builder(setter(into, strip_option), default)]");
    let lines = seq![
        "#[derive(derive_builder::Builder)]"@,
        "#[builder(setter(into, strip_option), default)]"@,
    ];
    assert(joined(lines.drop_last()) == "#[derive(derive_builder::Builder)]"@);
}

/// Joins `lines` into one text, a newline between neighbours.
pub fn join_lines(lines: &[&str]) -> (text: String)
    ensures
        text@ == joined(lines.deep_view()),
{
    let mut text = String::new();
    let mut i: usize = 0;
    while i < lines.len()
        invariant
            i <= lines@.len(),
            text@ == joined(lines.deep_view().take(i as int)),
        decreases lines@.len() - i,
    {
        if i > 0 {
            proof {
                reveal_strlit("\n");
            }
            text.append("\n");
        }
        text.append(lines[i]);
        assert(lines.deep_view().take(i + 1).drop_last() == lines.deep_view().take(i as int));
        i += 1;
    }
    assert(lines.deep_view().take(i as int) == lines.deep_view());
    text
}

/// Dotted path of a field: the type's path, a dot, the field's name.
pub fn field_path(path: &str, field: &str) -> (full: String)
    ensures
        full@ == field_path_text(path@, field@),
{
    let mut full = path.to_owned();
    proof {
        reveal_strlit(".");
    }
    full.append(".");
    full.append(field);
    full
}

} // verus!
