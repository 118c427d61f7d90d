//! Fluent attribute helpers for `prost_build::Config`.
//!
//! The operations work on the configuration in place and hand back the same
//! handle, so that calls chain. What a configuration holds is seen through
//! [`BuilderAttributes::attachments`]. Of the configuration's own methods
//! only `type_attribute` and `field_attribute` are called here.

use crate::model::{
    each, family, field_entries, group_entries, lemma_family_push, lemma_field_entries_push,
    Attachments,
};
use crate::utils::{
    derive_builder_attr, derive_builder_attr_text, field_path, join_lines, serde_as_attr,
    serde_as_attr_text, serde_attr, serde_attr_text, sqlx_from_row_attr,
    sqlx_from_row_attr_text, sqlx_type_attr, sqlx_type_attr_text,
};
use prost_build::Config;
use vstd::prelude::*;

verus! {

#[verifier::external_type_specification]
#[verifier::external_body]
pub struct ExConfig(prost_build::Config);

/// The type attributes that a `prost_build::Config` holds, as pairs of path
/// and attribute, in the order in which they were added.
pub uninterp spec fn config_type_attributes(config: Config) -> Seq<(Seq<char>, Seq<char>)>;

/// The field attributes that a `prost_build::Config` holds, as pairs of path
/// and attribute, in the order in which they were added.
pub uninterp spec fn config_field_attributes(config: Config) -> Seq<(Seq<char>, Seq<char>)>;

/// Calls `prost_build::Config::type_attribute`, which appends the pair of
/// `path` and `attribute` to the type attributes of the configuration and
/// leaves its field attributes as they are.
#[verifier::external_body]
fn type_attribute(config: &mut Config, path: &str, attribute: &str)
    ensures
        config_type_attributes(*final(config)) == config_type_attributes(*old(config)).push(
            (path@, attribute@),
        ),
        config_field_attributes(*final(config)) == config_field_attributes(*old(config)),
{
    config.type_attribute(path, attribute);
}

/// Calls `prost_build::Config::field_attribute`, which appends the pair of
/// `path` and `attribute` to the field attributes of the configuration and
/// leaves its type attributes as they are.
#[verifier::external_body]
fn field_attribute(config: &mut Config, path: &str, attribute: &str)
    ensures
        config_field_attributes(*final(config)) == config_field_attributes(*old(config)).push(
            (path@, attribute@),
        ),
        config_type_attributes(*final(config)) == config_type_attributes(*old(config)),
{
    config.field_attribute(path, attribute);
}

/// The derive line that `with_strum` attaches.
pub open spec fn strum_attr_text() -> Seq<char> {
    "#[derive(strum::EnumString, strum::Display,strum::EnumIter)]"@
}

/// Attaches attributes to the types and fields of the generated code, family
/// by family. Every operation hands back the handle it was called on.
pub trait BuilderAttributes: Sized {
    /// What has been attached to this handle so far.
    spec fn attachments(&self) -> Attachments;

    /// Attaches the serde derive line for the two switches to each type in
    /// `paths` and, directly behind it, the joined `extra_attrs` where there
    /// are any.
    fn with_serde(
        &mut self,
        paths: &[&str],
        ser: bool,
        de: bool,
        extra_attrs: Option<&[&str]>,
    ) -> (handle: &mut Self)
        ensures
            handle.attachments() == old(self).attachments().with_family(
                paths.deep_view(),
                serde_attr_text(ser, de),
                extra_attrs.deep_view(),
            ),
            *final(self) == *final(handle),
    ;

    /// Attaches the `serde_with` lines to the type at `path`, and the text
    /// of each group in `fields` to each of the group's fields of that type.
    fn with_serde_as(&mut self, path: &str, fields: &[(&[&str], &str)]) -> (handle: &mut Self)
        ensures
            handle.attachments() == old(self).attachments().with_fields_of(
                path@,
                serde_as_attr_text(),
                fields.deep_view(),
            ),
            *final(self) == *final(handle),
    ;

    /// Attaches `#[derive(sqlx::Type)]` to each type in `paths` and,
    /// directly behind it, the joined `extra_attrs` where there are any.
    fn with_sqlx_type(
        &mut self,
        paths: &[&str],
        extra_attrs: Option<&[&str]>,
    ) -> (handle: &mut Self)
        ensures
            handle.attachments() == old(self).attachments().with_family(
                paths.deep_view(),
                sqlx_type_attr_text(),
                extra_attrs.deep_view(),
            ),
            *final(self) == *final(handle),
    ;

    /// Attaches `#[derive(sqlx::FromRow)]` to each type in `paths` and,
    /// directly behind it, the joined `extra_attrs` where there are any.
    fn with_sqlx_from_row(
        &mut self,
        paths: &[&str],
        extra_attrs: Option<&[&str]>,
    ) -> (handle: &mut Self)
        ensures
            handle.attachments() == old(self).attachments().with_family(
                paths.deep_view(),
                sqlx_from_row_attr_text(),
                extra_attrs.deep_view(),
            ),
            *final(self) == *final(handle),
    ;

    /// Attaches the `derive_builder` lines to each type in `paths` and,
    /// directly behind them, the joined `extra_attrs` where there are any.
    fn with_derive_builder(
        &mut self,
        paths: &[&str],
        extra_attrs: Option<&[&str]>,
    ) -> (handle: &mut Self)
        ensures
            handle.attachments() == old(self).attachments().with_family(
                paths.deep_view(),
                derive_builder_attr_text(),
                extra_attrs.deep_view(),
            ),
            *final(self) == *final(handle),
    ;

    /// Attaches the strum derive line to each type in `paths` and, directly
    /// behind it, the joined `extra_attrs` where there are any.
    fn with_strum(
        &mut self,
        paths: &[&str],
        extra_attrs: Option<&[&str]>,
    ) -> (handle: &mut Self)
        ensures
            handle.attachments() == old(self).attachments().with_family(
                paths.deep_view(),
                strum_attr_text(),
                extra_attrs.deep_view(),
            ),
            *final(self) == *final(handle),
    ;

    /// Attaches the joined `attributes` to each type in `paths`, in their
    /// order, each once.
    fn with_type_attributes(
        &mut self,
        paths: &[&str],
        attributes: &[&str],
    ) -> (handle: &mut Self)
        ensures
            handle.attachments() == old(self).attachments().with_type_attributes(
                paths.deep_view(),
                attributes.deep_view(),
            ),
            *final(self) == *final(handle),
    ;

    /// Attaches the joined `attributes` to each field in `paths`, in their
    /// order, each once.
    fn with_field_attributes(
        &mut self,
        paths: &[&str],
        attributes: &[&str],
    ) -> (handle: &mut Self)
        ensures
            handle.attachments() == old(self).attachments().with_field_attributes(
                paths.deep_view(),
                attributes.deep_view(),
            ),
            *final(self) == *final(handle),
    ;

    /// As `with_type_attributes` where `attributes` is present. Where it is
    /// absent the configuration stays as it is.
    fn with_optional_type_attributes(
        &mut self,
        paths: &[&str],
        attributes: Option<&[&str]>,
    ) -> (handle: &mut Self)
        ensures
            handle.attachments() == old(self).attachments().with_optional_type_attributes(
                paths.deep_view(),
                attributes.deep_view(),
            ),
            attributes is None ==> *handle == *old(self),
            *final(self) == *final(handle),
    ;

    /// As `with_field_attributes` where `attributes` is present. Where it is
    /// absent the configuration stays as it is.
    fn with_optional_field_attributes(
        &mut self,
        paths: &[&str],
        attributes: Option<&[&str]>,
    ) -> (handle: &mut Self)
        ensures
            handle.attachments() == old(self).attachments().with_optional_field_attributes(
                paths.deep_view(),
                attributes.deep_view(),
            ),
            attributes is None ==> *handle == *old(self),
            *final(self) == *final(handle),
    ;
}

/// Attaches `head` to each type in `paths` and, directly behind it, the
/// optional `extra_attrs` to the same type.
fn attach_family(config: &mut Config, paths: &[&str], head: &str, extra_attrs: Option<&[&str]>)
    ensures
        final(config).attachments() == old(config).attachments().with_family(
            paths.deep_view(),
            head@,
            extra_attrs.deep_view(),
        ),
{
    let mut i: usize = 0;
    while i < paths.len()
        invariant
            i <= paths@.len(),
            config.attachments().types == old(config).attachments().types + family(
                paths.deep_view().take(i as int),
                head@,
                extra_attrs.deep_view(),
            ),
            config.attachments().fields == old(config).attachments().fields,
        decreases paths@.len() - i,
    {
        let ty = paths[i];
        type_attribute(config, ty, head);
        config.with_optional_type_attributes(&[ty], extra_attrs);
        proof {
            let done = paths.deep_view().take(i as int);
            assert(paths.deep_view().take(i + 1) == done.push(ty@));
            lemma_family_push(done, ty@, head@, extra_attrs.deep_view());
        }
        i += 1;
    }
    assert(paths.deep_view().take(i as int) == paths.deep_view());
}

impl BuilderAttributes for Config {
    open spec fn attachments(&self) -> Attachments {
        Attachments { types: config_type_attributes(*self), fields: config_field_attributes(*self) }
    }

    fn with_serde(
        &mut self,
        paths: &[&str],
        ser: bool,
        de: bool,
        extra_attrs: Option<&[&str]>,
    ) -> (handle: &mut Self) {
        let attr = serde_attr(ser, de);
        attach_family(self, paths, attr, extra_attrs);
        self
    }

    fn with_serde_as(&mut self, path: &str, fields: &[(&[&str], &str)]) -> (handle: &mut Self) {
        let serde_attr = serde_as_attr();
        type_attribute(self, path, serde_attr);
        let mut i: usize = 0;
        while i < fields.len()
            invariant
                i <= fields@.len(),
                self.attachments().types == old(self).attachments().types.push(
                    (path@, serde_as_attr_text()),
                ),
                self.attachments().fields == old(self).attachments().fields + field_entries(
                    path@,
                    fields.deep_view().take(i as int),
                ),
            decreases fields@.len() - i,
        {
            let ghost before = self.attachments();
            let (paths, attr) = fields[i];
            let mut j: usize = 0;
            while j < paths.len()
                invariant
                    j <= paths@.len(),
                    self.attachments().types == before.types,
                    self.attachments().fields == before.fields + group_entries(
                        path@,
                        (paths.deep_view().take(j as int), attr@),
                    ),
                decreases paths@.len() - j,
            {
                let p = field_path(path, paths[j]);
                field_attribute(self, p.as_str(), attr);
                j += 1;
            }
            proof {
                let done = fields.deep_view().take(i as int);
                assert(fields.deep_view().take(i + 1) == done.push((paths.deep_view(), attr@)));
                lemma_field_entries_push(path@, done, (paths.deep_view(), attr@));
            }
            i += 1;
        }
        assert(fields.deep_view().take(i as int) == fields.deep_view());
        self
    }

    fn with_sqlx_type(
        &mut self,
        paths: &[&str],
        extra_attrs: Option<&[&str]>,
    ) -> (handle: &mut Self) {
        attach_family(self, paths, sqlx_type_attr(), extra_attrs);
        self
    }

    fn with_sqlx_from_row(
        &mut self,
        paths: &[&str],
        extra_attrs: Option<&[&str]>,
    ) -> (handle: &mut Self) {
        attach_family(self, paths, sqlx_from_row_attr(), extra_attrs);
        self
    }

    fn with_derive_builder(
        &mut self,
        paths: &[&str],
        extra_attrs: Option<&[&str]>,
    ) -> (handle: &mut Self) {
        attach_family(self, paths, derive_builder_attr(), extra_attrs);
        self
    }

    fn with_strum(
        &mut self,
        paths: &[&str],
        extra_attrs: Option<&[&str]>,
    ) -> (handle: &mut Self) {
        attach_family(
            self,
            paths,
            "#[derive(strum::EnumString, strum::Display,strum::EnumIter)]",
            extra_attrs,
        );
        self
    }

    fn with_type_attributes(
        &mut self,
        paths: &[&str],
        attributes: &[&str],
    ) -> (handle: &mut Self) {
        let attr = join_lines(attributes);
        let mut i: usize = 0;
        while i < paths.len()
            invariant
                i <= paths@.len(),
                self.attachments().types == old(self).attachments().types + each(
                    paths.deep_view().take(i as int),
                    attr@,
                ),
                self.attachments().fields == old(self).attachments().fields,
            decreases paths@.len() - i,
        {
            type_attribute(self, paths[i], attr.as_str());
            i += 1;
        }
        assert(paths.deep_view().take(i as int) == paths.deep_view());
        self
    }

    fn with_field_attributes(
        &mut self,
        paths: &[&str],
        attributes: &[&str],
    ) -> (handle: &mut Self) {
        let attr = join_lines(attributes);
        let mut i: usize = 0;
        while i < paths.len()
            invariant
                i <= paths@.len(),
                self.attachments().types == old(self).attachments().types,
                self.attachments().fields == old(self).attachments().fields + each(
                    paths.deep_view().take(i as int),
                    attr@,
                ),
            decreases paths@.len() - i,
        {
            field_attribute(self, paths[i], attr.as_str());
            i += 1;
        }
        assert(paths.deep_view().take(i as int) == paths.deep_view());
        self
    }

    fn with_optional_type_attributes(
        &mut self,
        paths: &[&str],
        attributes: Option<&[&str]>,
    ) -> (handle: &mut Self) {
        if let Some(attributes) = attributes {
            self.with_type_attributes(paths, attributes)
        } else {
            self
        }
    }

    fn with_optional_field_attributes(
        &mut self,
        paths: &[&str],
        attributes: Option<&[&str]>,
    ) -> (handle: &mut Self) {
        if let Some(attributes) = attributes {
            self.with_field_attributes(paths, attributes)
        } else {
            self
        }
    }
}

} // verus!
