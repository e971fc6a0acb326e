//! Edits of the manifest: a document with a `dependencies` table that maps
//! each dependency to a version, or to a version and an alias. The document
//! is kept by `toml_edit`, which preserves the layout of what an edit leaves
//! alone; the contracts here speak of what the document holds, key by key.

use crate::error::PackageError;
use toml_edit::{DocumentMut, Item, Table, TomlError};
use vstd::prelude::*;

verus! {

#[verifier::external_type_specification]
#[verifier::external_body]
pub struct ExDocumentMut(toml_edit::DocumentMut);

#[verifier::external_type_specification]
#[verifier::external_body]
pub struct ExItem(toml_edit::Item);

#[verifier::external_type_specification]
#[verifier::external_body]
pub struct ExTomlError(toml_edit::TomlError);

/// What an item of the document holds.
pub enum Content {
    /// A string.
    Text(Seq<char>),
    /// A table or an inline table: its keys, each with what it holds.
    Fields(Map<Seq<char>, Content>),
    /// Any other item.
    Other,
}

/// The document that `toml_edit` parses from a text, where it parses one.
pub uninterp spec fn parsed_document(text: Seq<char>) -> Option<DocumentMut>;

/// The text that a document displays as.
pub uninterp spec fn document_text(doc: DocumentMut) -> Seq<char>;

/// The keys of the document's root, each with what it holds.
pub uninterp spec fn document_items(doc: DocumentMut) -> Map<Seq<char>, Content>;

/// What an item holds.
pub uninterp spec fn item_value(item: Item) -> Content;

/// A table without entries.
pub open spec fn no_entries() -> Map<Seq<char>, Content> {
    Map::empty()
}

/// The fields of a table that was given two string fields in turn.
pub open spec fn two_fields(
    first_key: Seq<char>,
    first: Seq<char>,
    second_key: Seq<char>,
    second: Seq<char>,
) -> Map<Seq<char>, Content> {
    no_entries().insert(first_key, Content::Text(first)).insert(second_key, Content::Text(second))
}

/// The document holds a table or an inline table under `section`.
pub open spec fn has_table(doc: DocumentMut, section: Seq<char>) -> bool {
    document_items(doc).contains_key(section) && document_items(doc)[section] is Fields
}

/// The entries of the table under `section`.
pub open spec fn section_entries(doc: DocumentMut, section: Seq<char>) -> Map<Seq<char>, Content> {
    document_items(doc)[section]->Fields_0
}

/// The root of the document with the table under `section` holding
/// `entries`, and every other key as it is.
pub open spec fn with_entries(
    doc: DocumentMut,
    section: Seq<char>,
    entries: Map<Seq<char>, Content>,
) -> Map<Seq<char>, Content> {
    document_items(doc).insert(section, Content::Fields(entries))
}

/// The table under `section` has a table or an inline table under `name`.
pub open spec fn has_fields(doc: DocumentMut, section: Seq<char>, name: Seq<char>) -> bool {
    &&& has_table(doc, section)
    &&& section_entries(doc, section).contains_key(name)
    &&& section_entries(doc, section)[name] is Fields
}

/// The root of the document with the entry `name` of the table under
/// `section` holding `fields`, and everything else as it is.
pub open spec fn with_fields(
    doc: DocumentMut,
    section: Seq<char>,
    name: Seq<char>,
    fields: Map<Seq<char>, Content>,
) -> Map<Seq<char>, Content> {
    with_entries(doc, section, section_entries(doc, section).insert(name, Content::Fields(fields)))
}

/// The fields of the entry `name` of the table under `section`.
pub open spec fn entry_fields(doc: DocumentMut, section: Seq<char>, name: Seq<char>) -> Map<
    Seq<char>,
    Content,
> {
    section_entries(doc, section)[name]->Fields_0
}

/// Parses a document with `str::parse::<toml_edit::DocumentMut>`. Trusted:
/// the outcome depends on the text alone.
#[verifier::external_body]
fn parse_document(text: &str) -> (r: Result<DocumentMut, TomlError>)
    ensures
        r.is_ok() == parsed_document(text@).is_some(),
        r matches Ok(d) ==> parsed_document(text@) == Some(d),
{
    text.parse::<DocumentMut>()
}

/// Formats a document through the `Display` impl of `toml_edit::DocumentMut`.
/// Trusted: the text depends on the document alone.
#[verifier::external_body]
fn render_document(doc: &DocumentMut) -> (r: String)
    ensures
        r@ == document_text(*doc),
{
    doc.to_string()
}

/// Indexes the document mutably by `section` and calls `Item::or_insert`
/// with an empty table, then `Item::is_table_like`. Trusted: a free key
/// gets an empty table, a document that has the key is left as it is, and
/// the result says whether the key holds a table now.
#[verifier::external_body]
fn ensure_section(doc: &mut DocumentMut, section: &str) -> (r: bool)
    ensures
        r == has_table(*final(doc), section@),
        !document_items(*old(doc)).contains_key(section@) ==> document_items(*final(doc))
            == with_entries(*old(doc), section@, no_entries()),
        document_items(*old(doc)).contains_key(section@) ==> document_items(*final(doc))
            == document_items(*old(doc)),
{
    doc[section].or_insert(Item::Table(Table::new())).is_table_like()
}

/// Calls `TableLike::contains_key` on the table under `section`. Trusted:
/// the result says whether the table has an entry for `name`.
#[verifier::external_body]
fn has_entry(doc: &DocumentMut, section: &str, name: &str) -> (r: bool)
    requires
        has_table(*doc, section@),
    ensures
        r == section_entries(*doc, section@).contains_key(name@),
{
    doc.get(section).unwrap().as_table_like().unwrap().contains_key(name)
}

/// Calls `Item::is_table_like` on the entry for `name` in the table under
/// `section`. Trusted: the result says whether that entry is a table or an
/// inline table.
#[verifier::external_body]
fn entry_has_fields(doc: &DocumentMut, section: &str, name: &str) -> (r: bool)
    requires
        has_table(*doc, section@),
        section_entries(*doc, section@).contains_key(name@),
    ensures
        r == (section_entries(*doc, section@)[name@] is Fields),
{
    doc.get(section).unwrap().as_table_like().unwrap().get(name).unwrap().is_table_like()
}

/// Builds a string item with `toml_edit::value`. Trusted: the item holds
/// that string.
#[verifier::external_body]
fn text_item(text: &str) -> (r: Item)
    ensures
        item_value(r) == Content::Text(text@),
{
    toml_edit::value(text)
}

/// Builds an inline table of two string fields: `Table::new`, two indexed
/// assignments of `toml_edit::value`, `Table::into_inline_table`. Trusted:
/// the item is a table-like value that holds the two fields, the second
/// assignment winning where the keys are the same.
#[verifier::external_body]
fn pair_item(first_key: &str, first: &str, second_key: &str, second: &str) -> (r: Item)
    ensures
        item_value(r) == Content::Fields(two_fields(first_key@, first@, second_key@, second@)),
{
    let mut table = Table::new();
    table[first_key] = toml_edit::value(first);
    table[second_key] = toml_edit::value(second);
    toml_edit::value(table.into_inline_table())
}

/// Calls `TableLike::insert` on the table under `section`. Trusted: the
/// table then maps `name` to the item; its other entries and the rest of
/// the document are unchanged.
#[verifier::external_body]
fn insert_entry(doc: &mut DocumentMut, section: &str, name: &str, item: Item)
    requires
        has_table(*old(doc), section@),
        !(item_value(item) is Other),
    ensures
        document_items(*final(doc)) == with_entries(
            *old(doc),
            section@,
            section_entries(*old(doc), section@).insert(name@, item_value(item)),
        ),
{
    doc[section].as_table_like_mut().unwrap().insert(name, item);
}

/// Assigns an item through `TableLike::get_mut` on the table under
/// `section`. Trusted: the table then maps `name` to the item; its other
/// entries and the rest of the document are unchanged.
#[verifier::external_body]
fn replace_entry(doc: &mut DocumentMut, section: &str, name: &str, item: Item)
    requires
        has_table(*old(doc), section@),
        section_entries(*old(doc), section@).contains_key(name@),
        !(item_value(item) is Other),
    ensures
        document_items(*final(doc)) == with_entries(
            *old(doc),
            section@,
            section_entries(*old(doc), section@).insert(name@, item_value(item)),
        ),
{
    *doc[section].as_table_like_mut().unwrap().get_mut(name).unwrap() = item;
}

/// Calls `TableLike::insert` with a string value on the entry for `name`,
/// itself a table. Trusted: that entry then maps `field` to the string;
/// its other fields, the other entries and the rest of the document are
/// unchanged.
#[verifier::external_body]
fn set_field(doc: &mut DocumentMut, section: &str, name: &str, field: &str, text: &str)
    requires
        has_fields(*old(doc), section@, name@),
    ensures
        document_items(*final(doc)) == with_fields(
            *old(doc),
            section@,
            name@,
            entry_fields(*old(doc), section@, name@).insert(field@, Content::Text(text@)),
        ),
{
    let entry = doc[section].as_table_like_mut().unwrap().get_mut(name).unwrap();
    entry.as_table_like_mut().unwrap().insert(field, toml_edit::value(text));
}

/// Calls `TableLike::remove` on the entry for `name`, itself a table.
/// Trusted: that entry then has no `field`; its other fields, the other
/// entries and the rest of the document are unchanged.
#[verifier::external_body]
fn remove_field(doc: &mut DocumentMut, section: &str, name: &str, field: &str)
    requires
        has_fields(*old(doc), section@, name@),
    ensures
        document_items(*final(doc)) == with_fields(
            *old(doc),
            section@,
            name@,
            entry_fields(*old(doc), section@, name@).remove(field@),
        ),
{
    let entry = doc[section].as_table_like_mut().unwrap().get_mut(name).unwrap();
    entry.as_table_like_mut().unwrap().remove(field);
}

/// Calls `TableLike::remove` on the table under `section`. Trusted: the
/// table then has no entry for `name`; its other entries and the rest of
/// the document are unchanged.
#[verifier::external_body]
fn remove_entry(doc: &mut DocumentMut, section: &str, name: &str)
    requires
        has_table(*old(doc), section@),
    ensures
        document_items(*final(doc)) == with_entries(
            *old(doc),
            section@,
            section_entries(*old(doc), section@).remove(name@),
        ),
{
    doc[section].as_table_like_mut().unwrap().remove(name);
}

/// The string under `field`, where the fields have that key and it holds a
/// string.
pub open spec fn text_field(fields: Map<Seq<char>, Content>, field: Seq<char>) -> Option<
    Seq<char>,
> {
    if fields.contains_key(field) {
        match fields[field] {
            Content::Text(text) => Some(text),
            _ => None,
        }
    } else {
        None
    }
}

/// Reads a field of the entry for `name`, itself a table, with `Item::get`
/// and `Item::as_str`. Trusted: the result is the string under `field`, and
/// `None` where the entry has no such field or the field holds no string.
#[verifier::external_body]
fn entry_text(doc: &DocumentMut, section: &str, name: &str, field: &str) -> (r: Option<String>)
    requires
        has_fields(*doc, section@, name@),
    ensures
        match r {
            Some(text) => text_field(entry_fields(*doc, section@, name@), field@) == Some(text@),
            None => text_field(entry_fields(*doc, section@, name@), field@).is_none(),
        },
{
    let entry = doc.get(section).unwrap().as_table_like().unwrap().get(name).unwrap();
    entry.get(field).and_then(Item::as_str).map(str::to_owned)
}

/// The key of the table of dependencies.
pub open spec fn section_key() -> Seq<char> {
    "dependencies"@
}

/// The field of an entry that holds the version.
pub open spec fn version_key() -> Seq<char> {
    "version"@
}

/// The field of an entry that holds the alias.
pub open spec fn alias_key() -> Seq<char> {
    "alias"@
}

/// The document can hold dependencies: its `dependencies` key is free or
/// holds a table.
pub open spec fn well_formed(doc: DocumentMut) -> bool {
    document_items(doc).contains_key(section_key()) ==> has_table(doc, section_key())
}

/// The dependencies of a document: the entries of its `dependencies` table,
/// none where it has no such table.
pub open spec fn dependencies(doc: DocumentMut) -> Map<Seq<char>, Content> {
    if has_table(doc, section_key()) {
        section_entries(doc, section_key())
    } else {
        Map::empty()
    }
}

/// What the document holds beside its dependencies.
pub open spec fn rest_of(doc: DocumentMut) -> Map<Seq<char>, Content> {
    document_items(doc).remove(section_key())
}

/// The text of an optional alias.
pub open spec fn alias_text(alias: Option<String>) -> Option<Seq<char>> {
    match alias {
        Some(a) => Some(a@),
        None => None,
    }
}

/// The entry written for a dependency that had none, or had a bare value:
/// the version alone, or the version and the alias as two fields.
pub open spec fn fresh_value(version: Seq<char>, alias: Option<Seq<char>>) -> Content {
    match alias {
        None => Content::Text(version),
        Some(a) => Content::Fields(two_fields(version_key(), version, alias_key(), a)),
    }
}

/// The fields of an entry after an update: the version is set, the alias is
/// set or cleared, the rest stays.
pub open spec fn updated_fields(
    fields: Map<Seq<char>, Content>,
    version: Seq<char>,
    alias: Option<Seq<char>>,
) -> Map<Seq<char>, Content> {
    match alias {
        Some(a) => fields.insert(version_key(), Content::Text(version)).insert(
            alias_key(),
            Content::Text(a),
        ),
        None => fields.insert(version_key(), Content::Text(version)).remove(alias_key()),
    }
}

/// The entry of a dependency after an upsert, given what was there before.
pub open spec fn upserted_value(
    before: Option<Content>,
    version: Seq<char>,
    alias: Option<Seq<char>>,
) -> Content {
    match before {
        Some(Content::Fields(fields)) => Content::Fields(updated_fields(fields, version, alias)),
        _ => fresh_value(version, alias),
    }
}

/// The entry for `name`, if the document has one.
pub open spec fn entry_of(doc: DocumentMut, name: Seq<char>) -> Option<Content> {
    if dependencies(doc).contains_key(name) {
        Some(dependencies(doc)[name])
    } else {
        None
    }
}

/// `after` is `before` with the dependency `name` upserted.
pub open spec fn is_upsert_of(
    before: DocumentMut,
    after: DocumentMut,
    name: Seq<char>,
    version: Seq<char>,
    alias: Option<Seq<char>>,
) -> bool {
    &&& has_table(after, section_key())
    &&& dependencies(after) == dependencies(before).insert(
        name,
        upserted_value(entry_of(before, name), version, alias),
    )
    &&& rest_of(after) == rest_of(before)
}

/// `after` is `before` without the dependency `name`.
pub open spec fn is_removal_of(before: DocumentMut, after: DocumentMut, name: Seq<char>) -> bool {
    &&& has_table(after, section_key())
    &&& dependencies(after) == dependencies(before).remove(name)
    &&& rest_of(after) == rest_of(before)
}

/// Parses the text of a manifest. A text that is no document is an
/// `InvalidManifest`.
pub fn get_config(manifest: &str) -> (r: Result<DocumentMut, PackageError>)
    ensures
        match parsed_document(manifest@) {
            Some(d) => r == Ok::<DocumentMut, PackageError>(d),
            None => r == Err::<DocumentMut, PackageError>(PackageError::InvalidManifest),
        },
{
    match parse_document(manifest) {
        Ok(doc) => Ok(doc),
        Err(_) => Err(PackageError::InvalidManifest),
    }
}

/// The text of a document, as it is written back to the manifest.
pub fn save_config(doc: &DocumentMut) -> (r: String)
    ensures
        r@ == document_text(*doc),
{
    render_document(doc)
}

/// Makes sure that the document has a `dependencies` table, creating an
/// empty one where the key is free. Where the key holds something else the
/// document is an `InvalidManifest` and stays as it is.
pub fn get_deps(doc: &mut DocumentMut) -> (r: Result<(), PackageError>)
    ensures
        dependencies(*final(doc)) == dependencies(*old(doc)),
        rest_of(*final(doc)) == rest_of(*old(doc)),
        well_formed(*old(doc)) ==> r.is_ok() && has_table(*final(doc), section_key()),
        !well_formed(*old(doc)) ==> r == Err::<(), PackageError>(PackageError::InvalidManifest)
            && document_items(*final(doc)) == document_items(*old(doc)),
{
    if ensure_section(doc, "dependencies") {
        Ok(())
    } else {
        Err(PackageError::InvalidManifest)
    }
}

/// The item for a dependency that is written whole: a bare version string
/// without an alias, an inline table of version and alias with one.
pub fn new_dependency(version: &str, alias: &Option<String>) -> (r: Item)
    ensures
        item_value(r) == fresh_value(version@, alias_text(*alias)),
{
    match alias {
        Some(a) => pair_item("version", version, "alias", a.as_str()),
        None => text_item(version),
    }
}

/// Updates the entry that the document has for `name`. A table keeps its
/// other fields: its version is set, its alias set or cleared. Any other
/// entry is replaced whole.
pub fn update_existing_dependency(
    doc: &mut DocumentMut,
    name: &str,
    version: &str,
    alias: &Option<String>,
)
    requires
        has_table(*old(doc), section_key()),
        dependencies(*old(doc)).contains_key(name@),
    ensures
        is_upsert_of(*old(doc), *final(doc), name@, version@, alias_text(*alias)),
{
    if entry_has_fields(doc, "dependencies", name) {
        set_field(doc, "dependencies", name, "version", version);
        let ghost versioned = *doc;
        match alias {
            Some(a) => set_field(doc, "dependencies", name, "alias", a.as_str()),
            None => remove_field(doc, "dependencies", name, "alias"),
        }
        proof {
            let fields = dependencies(*old(doc))[name@]->Fields_0;
            assert(rest_of(versioned) =~= rest_of(*old(doc)));
            assert(rest_of(*doc) =~= rest_of(versioned));
            assert(dependencies(*doc) =~= dependencies(*old(doc)).insert(
                name@,
                Content::Fields(updated_fields(fields, version@, alias_text(*alias))),
            ));
        }
    } else {
        let item = new_dependency(version, alias);
        replace_entry(doc, "dependencies", name, item);
        proof {
            assert(rest_of(*doc) =~= rest_of(*old(doc)));
        }
    }
}

/// Inserts or updates the dependency `name` with its version and optional
/// alias, creating the `dependencies` table where the document has none.
/// Fails with `InvalidManifest`, leaving the dependencies as they are, where
/// `dependencies` is no table.
pub fn upsert(doc: &mut DocumentMut, name: &str, version: &str, alias: &Option<String>) -> (r:
    Result<(), PackageError>)
    ensures
        well_formed(*old(doc)) ==> r.is_ok() && is_upsert_of(
            *old(doc),
            *final(doc),
            name@,
            version@,
            alias_text(*alias),
        ),
        !well_formed(*old(doc)) ==> r == Err::<(), PackageError>(PackageError::InvalidManifest)
            && document_items(*final(doc)) == document_items(*old(doc)),
{
    match get_deps(doc) {
        Err(e) => Err(e),
        Ok(()) => {
            if has_entry(doc, "dependencies", name) {
                update_existing_dependency(doc, name, version, alias);
            } else {
                let ghost ready = *doc;
                let item = new_dependency(version, alias);
                insert_entry(doc, "dependencies", name, item);
                proof {
                    assert(rest_of(*doc) =~= rest_of(ready));
                }
            }
            Ok(())
        },
    }
}

/// The alias that the document records for the dependency `name`: the
/// string under `alias` of an entry that is a table.
pub open spec fn recorded_alias(doc: DocumentMut, name: Seq<char>) -> Option<Seq<char>> {
    match entry_of(doc, name) {
        Some(Content::Fields(fields)) => text_field(fields, alias_key()),
        _ => None,
    }
}

/// Reads the alias that the document records for the dependency `name`.
/// Fails with `DependencyNotFound` where the document has no entry for it,
/// and with `InvalidManifest` where `dependencies` is no table. The
/// document keeps what it holds; a missing `dependencies` table is created
/// empty.
pub fn dependency_alias(doc: &mut DocumentMut, name: &str) -> (r: Result<
    Option<String>,
    PackageError,
>)
    ensures
        dependencies(*final(doc)) == dependencies(*old(doc)),
        rest_of(*final(doc)) == rest_of(*old(doc)),
        well_formed(*old(doc)) ==> has_table(*final(doc), section_key()),
        !well_formed(*old(doc)) ==> r == Err::<Option<String>, PackageError>(
            PackageError::InvalidManifest,
        ) && document_items(*final(doc)) == document_items(*old(doc)),
        well_formed(*old(doc)) && !dependencies(*old(doc)).contains_key(name@) ==> (r matches Err(
            PackageError::DependencyNotFound { name: n },
        ) && n@ == name@),
        well_formed(*old(doc)) && dependencies(*old(doc)).contains_key(name@) ==> (r matches Ok(
            alias,
        ) && alias_text(alias) == recorded_alias(*old(doc), name@)),
{
    match get_deps(doc) {
        Err(e) => Err(e),
        Ok(()) => {
            if !has_entry(doc, "dependencies", name) {
                Err(PackageError::DependencyNotFound { name: name.to_owned() })
            } else if entry_has_fields(doc, "dependencies", name) {
                Ok(entry_text(doc, "dependencies", name, "alias"))
            } else {
                Ok(None)
            }
        },
    }
}

/// Removes the dependency `name`. Fails with `DependencyNotFound` where the
/// document has no entry for it, and with `InvalidManifest` where
/// `dependencies` is no table. A failure changes no dependency and nothing
/// else that the document holds; a missing `dependencies` table is created
/// empty.
pub fn remove_dependency(doc: &mut DocumentMut, name: &str) -> (r: Result<(), PackageError>)
    ensures
        !well_formed(*old(doc)) ==> r == Err::<(), PackageError>(PackageError::InvalidManifest)
            && document_items(*final(doc)) == document_items(*old(doc)),
        well_formed(*old(doc)) && !dependencies(*old(doc)).contains_key(name@) ==> (r matches Err(
            PackageError::DependencyNotFound { name: n },
        ) && n@ == name@),
        well_formed(*old(doc)) && dependencies(*old(doc)).contains_key(name@) ==> r.is_ok(),
        well_formed(*old(doc)) ==> has_table(*final(doc), section_key()),
        r.is_ok() ==> is_removal_of(*old(doc), *final(doc), name@),
        r.is_err() ==> dependencies(*final(doc)) == dependencies(*old(doc)) && rest_of(*final(doc))
            == rest_of(*old(doc)),
{
    match get_deps(doc) {
        Err(e) => Err(e),
        Ok(()) => {
            if has_entry(doc, "dependencies", name) {
                let ghost ready = *doc;
                remove_entry(doc, "dependencies", name);
                proof {
                    assert(rest_of(*doc) =~= rest_of(ready));
                }
                Ok(())
            } else {
                Err(PackageError::DependencyNotFound { name: name.to_owned() })
            }
        },
    }
}

/// Whether `r` is what an upsert into the manifest `manifest` gives: the
/// text of a document that is the parsed manifest with the dependency
/// upserted, or `InvalidManifest` where the text is no document or its
/// `dependencies` is no table.
pub open spec fn is_update_of(
    manifest: Seq<char>,
    name: Seq<char>,
    version: Seq<char>,
    alias: Option<Seq<char>>,
    r: Result<String, PackageError>,
) -> bool {
    match parsed_document(manifest) {
        Some(d) if well_formed(d) => r matches Ok(s) && exists|after: DocumentMut|
            is_upsert_of(d, after, name, version, alias) && #[trigger] document_text(after) == s@,
        _ => r == Err::<String, PackageError>(PackageError::InvalidManifest),
    }
}

/// Records a dependency in the text of a manifest and returns the new text.
pub fn update_mod(manifest: &str, name: &str, version: &str, alias: &Option<String>) -> (r: Result<
    String,
    PackageError,
>)
    ensures
        is_update_of(manifest@, name@, version@, alias_text(*alias), r),
{
    let mut doc = get_config(manifest)?;
    let ghost parsed = doc;
    match upsert(&mut doc, name, version, alias) {
        Err(e) => Err(e),
        Ok(()) => {
            let text = save_config(&doc);
            proof {
                assert(is_upsert_of(parsed, doc, name@, version@, alias_text(*alias))
                    && document_text(doc) == text@);
            }
            Ok(text)
        },
    }
}

/// Whether `r` is what the removal of `name` from the manifest `manifest`
/// gives: the text of a document that is the parsed manifest without the
/// dependency; `DependencyNotFound` where it has no such entry;
/// `InvalidManifest` where the text is no document or its `dependencies` is
/// no table.
pub open spec fn is_removal_from(
    manifest: Seq<char>,
    name: Seq<char>,
    r: Result<String, PackageError>,
) -> bool {
    match parsed_document(manifest) {
        Some(d) if well_formed(d) => if dependencies(d).contains_key(name) {
            r matches Ok(s) && exists|after: DocumentMut|
                is_removal_of(d, after, name) && #[trigger] document_text(after) == s@
        } else {
            r matches Err(PackageError::DependencyNotFound { name: n }) && n@ == name
        },
        _ => r == Err::<String, PackageError>(PackageError::InvalidManifest),
    }
}

/// Removes a dependency from the text of a manifest and returns the new
/// text.
pub fn remove_dep(manifest: &str, name: &str) -> (r: Result<String, PackageError>)
    ensures
        is_removal_from(manifest@, name@, r),
{
    let mut doc = get_config(manifest)?;
    let ghost parsed = doc;
    match remove_dependency(&mut doc, name) {
        Err(e) => Err(e),
        Ok(()) => {
            let text = save_config(&doc);
            proof {
                assert(is_removal_of(parsed, doc, name@) && document_text(doc) == text@);
            }
            Ok(text)
        },
    }
}

/// An upsert followed by the removal of the same name leaves the
/// dependencies that the document had before the upsert, without that name:
/// every other entry is as it was.
pub proof fn upsert_then_remove(
    before: DocumentMut,
    upserted: DocumentMut,
    removed: DocumentMut,
    name: Seq<char>,
    version: Seq<char>,
    alias: Option<Seq<char>>,
)
    requires
        is_upsert_of(before, upserted, name, version, alias),
        is_removal_of(upserted, removed, name),
    ensures
        dependencies(removed) == dependencies(before).remove(name),
        !dependencies(removed).contains_key(name),
        forall|other: Seq<char>|
            other != name ==> entry_of(removed, other) == entry_of(before, other),
        rest_of(removed) == rest_of(before),
{
    assert(dependencies(removed) =~= dependencies(before).remove(name));
}

/// An upsert repeated with the same version and alias changes no
/// dependency.
pub proof fn upsert_twice(
    before: DocumentMut,
    once: DocumentMut,
    twice: DocumentMut,
    name: Seq<char>,
    version: Seq<char>,
    alias: Option<Seq<char>>,
)
    requires
        is_upsert_of(before, once, name, version, alias),
        is_upsert_of(once, twice, name, version, alias),
    ensures
        dependencies(twice) == dependencies(once),
        rest_of(twice) == rest_of(once),
{
    let first = upserted_value(entry_of(before, name), version, alias);
    assert(entry_of(once, name) == Some(first));
    let second = upserted_value(Some(first), version, alias);
    match first {
        Content::Fields(fields) => {
            assert(updated_fields(fields, version, alias) =~= fields);
        },
        _ => {},
    }
    assert(second == first);
    assert(dependencies(twice) =~= dependencies(once));
}

/// After an upsert the document records for the dependency exactly the
/// alias that was given, or none where none was: its mirror is looked for
/// under the alias that it was fetched with.
pub proof fn upsert_records_alias(
    before: DocumentMut,
    after: DocumentMut,
    name: Seq<char>,
    version: Seq<char>,
    alias: Option<Seq<char>>,
)
    requires
        is_upsert_of(before, after, name, version, alias),
    ensures
        recorded_alias(after, name) == alias,
{
    assert(entry_of(after, name) == Some(upserted_value(entry_of(before, name), version, alias)));
}

/// A second removal of the same name finds no entry.
pub proof fn remove_twice(before: DocumentMut, after: DocumentMut, name: Seq<char>)
    requires
        is_removal_of(before, after, name),
    ensures
        well_formed(after),
        !dependencies(after).contains_key(name),
{
}

} // verus!
