//! Fluent attribute helpers for `tonic_build::Builder`.
//!
//! The operations take the builder by value and hand it back, so that calls
//! chain. What a builder holds is seen through
//! [`BuilderAttributes::attachments`]. Of the builder's own methods only
//! `type_attribute` and `field_attribute` are called here.

use crate::model::{
    each, family, field_entries, group_entries, lemma_family_push, lemma_field_entries_push,
    Attachments,
};
use crate::utils::{
    derive_builder_attr, derive_builder_attr_text, field_path, join_lines, serde_as_attr,
    serde_as_attr_text, serde_attr, serde_attr_text, sqlx_from_row_attr,
    sqlx_from_row_attr_text, sqlx_type_attr, sqlx_type_attr_text,
};
use tonic_build::Builder;
use vstd::prelude::*;

verus! {

#[verifier::external_type_specification]
#[verifier::external_body]
pub struct ExBuilder(tonic_build::Builder);

/// The type attributes that a `tonic_build::Builder` holds, as pairs of path
/// and attribute, in the order in which they were added.
pub uninterp spec fn builder_type_attributes(builder: Builder) -> Seq<(Seq<char>, Seq<char>)>;

/// The field attributes that a `tonic_build::Builder` holds, as pairs of
/// path and attribute, in the order in which they were added.
pub uninterp spec fn builder_field_attributes(builder: Builder) -> Seq<(Seq<char>, Seq<char>)>;

/// Calls `tonic_build::Builder::type_attribute`, which hands the builder
/// back with the pair of `path` and `attribute` appended to its type
/// attributes and its field attributes as they were.
#[verifier::external_body]
fn type_attribute(builder: Builder, path: &str, attribute: &str) -> (next: Builder)
    ensures
        builder_type_attributes(next) == builder_type_attributes(builder).push(
            (path@, attribute@),
        ),
        builder_field_attributes(next) == builder_field_attributes(builder),
{
    builder.type_attribute(path, attribute)
}

/// Calls `tonic_build::Builder::field_attribute`, which hands the builder
/// back with the pair of `path` and `attribute` appended to its field
/// attributes and its type attributes as they were.
#[verifier::external_body]
fn field_attribute(builder: Builder, path: &str, attribute: &str) -> (next: Builder)
    ensures
        builder_field_attributes(next) == builder_field_attributes(builder).push(
            (path@, attribute@),
        ),
        builder_type_attributes(next) == builder_type_attributes(builder),
{
    builder.field_attribute(path, attribute)
}

/// The derive line that `with_strum` attaches.
pub open spec fn strum_attr_text() -> Seq<char> {
    "#[derive(strum::EnumString, strum::Display, strum::EnumIter)]"@
}

/// Attaches attributes to the types and fields of the generated code, family
/// by family. Every operation takes the builder and hands it back.
pub trait BuilderAttributes: Sized {
    /// What has been attached to this builder so far.
    spec fn attachments(&self) -> Attachments;

    /// Attaches the serde derive line for the two switches to each type in
    /// `paths` and, directly behind it, the joined `extra_attrs` where there
    /// are any.
    fn with_serde(
        self,
        paths: &[&str],
        ser: bool,
        de: bool,
        extra_attrs: Option<&[&str]>,
    ) -> (next: Self)
        ensures
            next.attachments() == self.attachments().with_family(
                paths.deep_view(),
                serde_attr_text(ser, de),
                extra_attrs.deep_view(),
            ),
    ;

    /// Attaches the `serde_with` lines to the type at `path`, and the text
    /// of each group in `fields` to each of the group's fields of that type.
    fn with_serde_as(self, path: &str, fields: &[(&[&str], &str)]) -> (next: Self)
        ensures
            next.attachments() == self.attachments().with_fields_of(
                path@,
                serde_as_attr_text(),
                fields.deep_view(),
            ),
    ;

    /// Attaches `#[derive(sqlx::Type)]` to each type in `paths` and,
    /// directly behind it, the joined `extra_attrs` where there are any.
    fn with_sqlx_type(self, paths: &[&str], extra_attrs: Option<&[&str]>) -> (next: Self)
        ensures
            next.attachments() == self.attachments().with_family(
                paths.deep_view(),
                sqlx_type_attr_text(),
                extra_attrs.deep_view(),
            ),
    ;

    /// Attaches `#[derive(sqlx::FromRow)]` to each type in `paths` and,
    /// directly behind it, the joined `extra_attrs` where there are any.
    fn with_sqlx_from_row(self, paths: &[&str], extra_attrs: Option<&[&str]>) -> (next: Self)
        ensures
            next.attachments() == self.attachments().with_family(
                paths.deep_view(),
                sqlx_from_row_attr_text(),
                extra_attrs.deep_view(),
            ),
    ;

    /// Attaches the `derive_builder` lines to each type in `paths` and,
    /// directly behind them, the joined `extra_attrs` where there are any.
    fn with_derive_builder(self, paths: &[&str], extra_attrs: Option<&[&str]>) -> (next: Self)
        ensures
            next.attachments() == self.attachments().with_family(
                paths.deep_view(),
                derive_builder_attr_text(),
                extra_attrs.deep_view(),
            ),
    ;

    /// Attaches the strum derive line to each type in `paths` and, directly
    /// behind it, the joined `extra_attrs` where there are any.
    fn with_strum(self, paths: &[&str], extra_attrs: Option<&[&str]>) -> (next: Self)
        ensures
            next.attachments() == self.attachments().with_family(
                paths.deep_view(),
                strum_attr_text(),
                extra_attrs.deep_view(),
            ),
    ;

    /// Attaches the joined `attributes` to each type in `paths`, in their
    /// order, each once.
    fn with_type_attributes(self, paths: &[&str], attributes: &[&str]) -> (next: Self)
        ensures
            next.attachments() == self.attachments().with_type_attributes(
                paths.deep_view(),
                attributes.deep_view(),
            ),
    ;

    /// Attaches the joined `attributes` to each field in `paths`, in their
    /// order, each once.
    fn with_field_attributes(self, paths: &[&str], attributes: &[&str]) -> (next: Self)
        ensures
            next.attachments() == self.attachments().with_field_attributes(
                paths.deep_view(),
                attributes.deep_view(),
            ),
    ;

    /// As `with_type_attributes` where `attributes` is present. Where it is
    /// absent the builder comes back as it was.
    fn with_optional_type_attributes(
        self,
        paths: &[&str],
        attributes: Option<&[&str]>,
    ) -> (next: Self)
        ensures
            next.attachments() == self.attachments().with_optional_type_attributes(
                paths.deep_view(),
                attributes.deep_view(),
            ),
            attributes is None ==> next == self,
    ;

    /// As `with_field_attributes` where `attributes` is present. Where it is
    /// absent the builder comes back as it was.
    fn with_optional_field_attributes(
        self,
        paths: &[&str],
        attributes: Option<&[&str]>,
    ) -> (next: Self)
        ensures
            next.attachments() == self.attachments().with_optional_field_attributes(
                paths.deep_view(),
                attributes.deep_view(),
            ),
            attributes is None ==> next == self,
    ;
}

/// Attaches `head` to each type in `paths` and, directly behind it, the
/// optional `extra_attrs` to the same type.
fn attach_family(
    builder: Builder,
    paths: &[&str],
    head: &str,
    extra_attrs: Option<&[&str]>,
) -> (next: Builder)
    ensures
        next.attachments() == builder.attachments().with_family(
            paths.deep_view(),
            head@,
            extra_attrs.deep_view(),
        ),
{
    let mut next = builder;
    let mut i: usize = 0;
    while i < paths.len()
        invariant
            i <= paths@.len(),
            next.attachments().types == builder.attachments().types + family(
                paths.deep_view().take(i as int),
                head@,
                extra_attrs.deep_view(),
            ),
            next.attachments().fields == builder.attachments().fields,
        decreases paths@.len() - i,
    {
        let ty = paths[i];
        next = type_attribute(next, ty, head).with_optional_type_attributes(&[ty], extra_attrs);
        proof {
            let done = paths.deep_view().take(i as int);
            assert(paths.deep_view().take(i + 1) == done.push(ty@));
            lemma_family_push(done, ty@, head@, extra_attrs.deep_view());
        }
        i += 1;
    }
    assert(paths.deep_view().take(i as int) == paths.deep_view());
    next
}

impl BuilderAttributes for Builder {
    open spec fn attachments(&self) -> Attachments {
        Attachments {
            types: builder_type_attributes(*self),
            fields: builder_field_attributes(*self),
        }
    }

    fn with_serde(
        self,
        paths: &[&str],
        ser: bool,
        de: bool,
        extra_attrs: Option<&[&str]>,
    ) -> (next: Self) {
        let attr = serde_attr(ser, de);
        attach_family(self, paths, attr, extra_attrs)
    }

    fn with_serde_as(self, path: &str, fields: &[(&[&str], &str)]) -> (next: Self) {
        let serde_attr = serde_as_attr();
        let mut builder = type_attribute(self, path, serde_attr);
        let mut i: usize = 0;
        while i < fields.len()
            invariant
                i <= fields@.len(),
                builder.attachments().types == self.attachments().types.push(
                    (path@, serde_as_attr_text()),
                ),
                builder.attachments().fields == self.attachments().fields + field_entries(
                    path@,
                    fields.deep_view().take(i as int),
                ),
            decreases fields@.len() - i,
        {
            let ghost before = builder.attachments();
            let (paths, attr) = fields[i];
            let mut j: usize = 0;
            while j < paths.len()
                invariant
                    j <= paths@.len(),
                    builder.attachments().types == before.types,
                    builder.attachments().fields == before.fields + group_entries(
                        path@,
                        (paths.deep_view().take(j as int), attr@),
                    ),
                decreases paths@.len() - j,
            {
                let p = field_path(path, paths[j]);
                builder = field_attribute(builder, p.as_str(), attr);
                j += 1;
            }
            proof {
                let done = fields.deep_view().take(i as int);
                assert(fields.deep_view().take(i + 1) == done.push((paths.deep_view(), attr@)));
                lemma_field_entries_push(path@, done, (paths.deep_view(), attr@));
            }
            i += 1;
        }
        assert(fields.deep_view().take(i as int) == fields.deep_view());
        builder
    }

    fn with_sqlx_type(self, paths: &[&str], extra_attrs: Option<&[&str]>) -> (next: Self) {
        attach_family(self, paths, sqlx_type_attr(), extra_attrs)
    }

    fn with_sqlx_from_row(self, paths: &[&str], extra_attrs: Option<&[&str]>) -> (next: Self) {
        attach_family(self, paths, sqlx_from_row_attr(), extra_attrs)
    }

    fn with_derive_builder(self, paths: &[&str], extra_attrs: Option<&[&str]>) -> (next: Self) {
        attach_family(self, paths, derive_builder_attr(), extra_attrs)
    }

    fn with_strum(self, paths: &[&str], extra_attrs: Option<&[&str]>) -> (next: Self) {
        attach_family(
            self,
            paths,
            "#[derive(strum::EnumString, strum::Display, strum::EnumIter)]",
            extra_attrs,
        )
    }

    fn with_type_attributes(self, paths: &[&str], attributes: &[&str]) -> (next: Self) {
        let attr = join_lines(attributes);
        let mut builder = self;
        let mut i: usize = 0;
        while i < paths.len()
            invariant
                i <= paths@.len(),
                builder.attachments().types == self.attachments().types + each(
                    paths.deep_view().take(i as int),
                    attr@,
                ),
                builder.attachments().fields == self.attachments().fields,
            decreases paths@.len() - i,
        {
            builder = type_attribute(builder, paths[i], attr.as_str());
            i += 1;
        }
        assert(paths.deep_view().take(i as int) == paths.deep_view());
        builder
    }

    fn with_field_attributes(self, paths: &[&str], attributes: &[&str]) -> (next: Self) {
        let attr = join_lines(attributes);
        let mut builder = self;
        let mut i: usize = 0;
        while i < paths.len()
            invariant
                i <= paths@.len(),
                builder.attachments().types == self.attachments().types,
                builder.attachments().fields == self.attachments().fields + each(
                    paths.deep_view().take(i as int),
                    attr@,
                ),
            decreases paths@.len() - i,
        {
            builder = field_attribute(builder, paths[i], attr.as_str());
            i += 1;
        }
        assert(paths.deep_view().take(i as int) == paths.deep_view());
        builder
    }

    fn with_optional_type_attributes(
        self,
        paths: &[&str],
        attributes: Option<&[&str]>,
    ) -> (next: Self) {
        if let Some(attributes) = attributes {
            self.with_type_attributes(paths, attributes)
        } else {
            self
        }
    }

    fn with_optional_field_attributes(
        self,
        paths: &[&str],
        attributes: Option<&[&str]>,
    ) -> (next: Self) {
        if let Some(attributes) = attributes {
            self.with_field_attributes(paths, attributes)
        } else {
            self
        }
    }
}

} // verus!
