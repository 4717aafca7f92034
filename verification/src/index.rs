//! The search index's schema (one stored text field that holds transaction
//! ids) and the documents written to it.

use tantivy::schema::{
    Field, IndexRecordOption, Schema, SchemaBuilder, TextFieldIndexing, TextOptions,
};
use tantivy::{TantivyDocument, TantivyError};
use vstd::prelude::*;

verus! {

#[verifier::external_type_specification]
#[verifier::external_body]
pub struct ExSchemaBuilder(tantivy::schema::SchemaBuilder);

#[verifier::external_type_specification]
#[verifier::external_body]
pub struct ExSchema(tantivy::schema::Schema);

#[verifier::external_type_specification]
#[verifier::external_body]
pub struct ExField(tantivy::schema::Field);

#[verifier::external_type_specification]
#[verifier::external_body]
pub struct ExTextOptions(tantivy::schema::TextOptions);

#[verifier::external_type_specification]
#[verifier::external_body]
pub struct ExTextFieldIndexing(tantivy::schema::TextFieldIndexing);

#[verifier::external_type_specification]
#[verifier::external_body]
pub struct ExTantivyDocument(tantivy::TantivyDocument);

#[verifier::external_type_specification]
#[verifier::external_body]
pub struct ExTantivyError(tantivy::TantivyError);

/// How much tantivy records about each occurrence of a term (mirrors
/// `IndexRecordOption`).
#[derive(PartialEq, Eq, Structural, Clone, Copy)]
pub enum RecordLevel {
    Basic,
    WithFreqs,
    WithFreqsAndPositions,
}

/// How a text field is indexed: the tokenizer's name, whether field norms
/// are kept, and what is recorded of each term.
pub ghost struct IndexingView {
    pub tokenizer: Seq<char>,
    pub fieldnorms: bool,
    pub record: RecordLevel,
}

/// How a text field is handled: indexed (and how) or not, stored or not,
/// a fast field or not, and whether other values are coerced to text.
pub ghost struct TextOptionsView {
    pub indexing: Option<IndexingView>,
    pub stored: bool,
    pub fast: bool,
    pub coerce: bool,
}

/// A schema field: its name, and its options when it is a text field.
pub ghost struct FieldView {
    pub name: Seq<char>,
    pub text: Option<TextOptionsView>,
}

/// The names of a list of fields.
pub open spec fn field_names(fields: Seq<FieldView>) -> Seq<Seq<char>> {
    fields.map_values(|f: FieldView| f.name)
}

/// What tantivy's `TextFieldIndexing` holds, as read by its accessors
/// `tokenizer`, `fieldnorms` and `index_option`.
pub uninterp spec fn indexing_view(i: TextFieldIndexing) -> IndexingView;

/// What tantivy's `TextOptions` holds, as read by its accessors
/// `get_indexing_options`, `is_stored`, `is_fast` and `should_coerce`.
pub uninterp spec fn options_view(o: TextOptions) -> TextOptionsView;

/// The fields added to a schema builder, in the order they were added (a
/// field's number is its position).
pub uninterp spec fn builder_fields(b: SchemaBuilder) -> Seq<FieldView>;

/// A schema's fields; a field's number is its position.
pub uninterp spec fn schema_fields(s: Schema) -> Seq<FieldView>;

/// The number that tantivy gives a field handle (`Field::field_id`).
pub uninterp spec fn field_number(f: Field) -> u32;

/// The text values of a document, each with the number of its field, in the
/// order they were added.
pub uninterp spec fn document_texts(d: TantivyDocument) -> Seq<(u32, Seq<char>)>;

/// Whether tantivy accepts `name` as a field name: not empty, and not
/// starting with `-`.
pub open spec fn valid_field_name(name: Seq<char>) -> bool {
    name.len() > 0 && name[0] != '-'
}

/// `Schema::builder`: a builder with no field.
#[verifier::external_body]
fn schema_builder() -> (b: SchemaBuilder)
    ensures
        builder_fields(b) == Seq::<FieldView>::empty(),
{
    Schema::builder()
}

/// `TextFieldIndexing::default`: the `default` tokenizer, field norms kept,
/// and only the documents of each term recorded.
#[verifier::external_body]
fn default_indexing() -> (r: TextFieldIndexing)
    ensures
        indexing_view(r) == (IndexingView {
            tokenizer: "default"@,
            fieldnorms: true,
            record: RecordLevel::Basic,
        }),
{
    TextFieldIndexing::default()
}

/// `TextFieldIndexing::set_tokenizer`: the same, with another tokenizer.
#[verifier::external_body]
fn set_tokenizer(i: TextFieldIndexing, name: &str) -> (r: TextFieldIndexing)
    ensures
        indexing_view(r) == (IndexingView { tokenizer: name@, ..indexing_view(i) }),
{
    i.set_tokenizer(name)
}

/// `TextFieldIndexing::set_fieldnorms`: the same, with field norms kept or
/// not.
#[verifier::external_body]
fn set_fieldnorms(i: TextFieldIndexing, fieldnorms: bool) -> (r: TextFieldIndexing)
    ensures
        indexing_view(r) == (IndexingView { fieldnorms, ..indexing_view(i) }),
{
    i.set_fieldnorms(fieldnorms)
}

/// `TextFieldIndexing::set_index_option`: the same, recording `record`.
#[verifier::external_body]
fn set_index_option(i: TextFieldIndexing, record: RecordLevel) -> (r: TextFieldIndexing)
    ensures
        indexing_view(r) == (IndexingView { record, ..indexing_view(i) }),
{
    let option = match record {
        RecordLevel::Basic => IndexRecordOption::Basic,
        RecordLevel::WithFreqs => IndexRecordOption::WithFreqs,
        RecordLevel::WithFreqsAndPositions => IndexRecordOption::WithFreqsAndPositions,
    };
    i.set_index_option(option)
}

/// `TextOptions::default`: not indexed, not stored, not fast, no coercion.
#[verifier::external_body]
fn default_text_options() -> (r: TextOptions)
    ensures
        options_view(r) == (TextOptionsView {
            indexing: None,
            stored: false,
            fast: false,
            coerce: false,
        }),
{
    TextOptions::default()
}

/// `TextOptions::set_indexing_options`: the same, indexed as `indexing`
/// says.
#[verifier::external_body]
fn set_indexing_options(o: TextOptions, indexing: TextFieldIndexing) -> (r: TextOptions)
    ensures
        options_view(r) == (TextOptionsView {
            indexing: Some(indexing_view(indexing)),
            ..options_view(o)
        }),
{
    o.set_indexing_options(indexing)
}

/// `TextOptions::set_stored`: the same, stored.
#[verifier::external_body]
fn set_stored(o: TextOptions) -> (r: TextOptions)
    ensures
        options_view(r) == (TextOptionsView { stored: true, ..options_view(o) }),
{
    o.set_stored()
}

/// `SchemaBuilder::add_text_field`: appends a text field with the given name
/// and options and returns its handle, numbered by its position. tantivy
/// panics on an invalid or repeated name.
#[verifier::external_body]
fn add_text_field(b: &mut SchemaBuilder, name: &str, options: TextOptions) -> (f: Field)
    requires
        valid_field_name(name@),
        !field_names(builder_fields(*old(b))).contains(name@),
        builder_fields(*old(b)).len() < u32::MAX,
    ensures
        builder_fields(*final(b)) == builder_fields(*old(b)).push(
            FieldView { name: name@, text: Some(options_view(options)) },
        ),
        field_number(f) == builder_fields(*old(b)).len(),
{
    b.add_text_field(name, options)
}

/// `SchemaBuilder::build`: the schema with the builder's fields.
#[verifier::external_body]
fn build_schema(b: SchemaBuilder) -> (s: Schema)
    ensures
        schema_fields(s) == builder_fields(b),
{
    b.build()
}

/// `Schema::get_field`: the handle of the field with the given name, an
/// error when there is none.
#[verifier::external_body]
fn get_field(s: &Schema, name: &str) -> (r: Result<Field, TantivyError>)
    ensures
        r is Ok <==> field_names(schema_fields(*s)).contains(name@),
        r matches Ok(f) ==> field_number(f) < schema_fields(*s).len() && schema_fields(
            *s,
        )[field_number(f) as int].name == name@,
{
    s.get_field(name)
}

/// `TantivyDocument::new`: a document with no value.
#[verifier::external_body]
fn new_document() -> (d: TantivyDocument)
    ensures
        document_texts(d) == Seq::<(u32, Seq<char>)>::empty(),
{
    TantivyDocument::new()
}

/// `TantivyDocument::add_text`: appends a text value for a field.
#[verifier::external_body]
fn add_text(d: &mut TantivyDocument, f: Field, text: &str)
    ensures
        document_texts(*final(d)) == document_texts(*old(d)).push((field_number(f), text@)),
{
    d.add_text(f, text)
}

/// How a text field is indexed, chosen by the library: the given tokenizer,
/// field norms kept or not, and the given record level.
pub fn text_indexing(tokenizer: &str, fieldnorms: bool, record: RecordLevel) -> (r:
    TextFieldIndexing)
    ensures
        indexing_view(r) == (IndexingView { tokenizer: tokenizer@, fieldnorms, record }),
{
    set_index_option(set_fieldnorms(set_tokenizer(default_indexing(), tokenizer), fieldnorms), record)
}

/// The options of a text field: indexed as `indexing` says when given, not
/// indexed otherwise; stored when `stored`; never fast, never coerced.
pub fn text_options(indexing: Option<TextFieldIndexing>, stored: bool) -> (r: TextOptions)
    ensures
        options_view(r) == (TextOptionsView {
            indexing: match indexing {
                Some(i) => Some(indexing_view(i)),
                None => None,
            },
            stored,
            fast: false,
            coerce: false,
        }),
{
    let mut options = default_text_options();
    match indexing {
        Some(i) => {
            options = set_indexing_options(options, i);
        },
        None => {},
    }
    if stored {
        options = set_stored(options);
    }
    options
}

/// The name of the field that holds transaction ids.
pub open spec fn transaction_field_name() -> Seq<char> {
    "transactionId"@
}

/// The options of the transaction id field (tantivy's `TEXT | STORED`):
/// tokenized by the `default` tokenizer, indexed with field norms, term
/// frequencies and positions, and stored.
pub open spec fn transaction_field_options() -> TextOptionsView {
    TextOptionsView {
        indexing: Some(
            IndexingView {
                tokenizer: "default"@,
                fieldnorms: true,
                record: RecordLevel::WithFreqsAndPositions,
            },
        ),
        stored: true,
        fast: false,
        coerce: false,
    }
}

/// The schema of the transaction index: a single text field named
/// `transactionId`, tokenized, indexed with positions and stored, and the
/// handle of that field, looked up by its name.
pub fn transaction_id_schema() -> (r: (Schema, Field))
    ensures
        schema_fields(r.0) == seq![
            FieldView { name: transaction_field_name(), text: Some(transaction_field_options()) },
        ],
        field_number(r.1) == 0,
{
    proof {
        reveal_strlit("transactionId");
    }
    let options = text_options(
        Some(text_indexing("default", true, RecordLevel::WithFreqsAndPositions)),
        true,
    );
    let mut builder = schema_builder();
    let added = add_text_field(&mut builder, "transactionId", options);
    let schema = build_schema(builder);
    assert(schema_fields(schema) =~= seq![
        FieldView { name: transaction_field_name(), text: Some(transaction_field_options()) },
    ]);
    assert(field_names(schema_fields(schema)) =~= seq![transaction_field_name()]);
    match get_field(&schema, "transactionId") {
        Ok(field) => (schema, field),
        // The field was added above, so the lookup finds it.
        Err(_) => (schema, added),
    }
}

/// The document that records one transaction id in the index.
pub fn transaction_document(field: Field, key: &str) -> (d: TantivyDocument)
    ensures
        document_texts(d) == seq![(field_number(field), key@)],
{
    let mut d = new_document();
    add_text(&mut d, field, key);
    assert(document_texts(d) =~= seq![(field_number(field), key@)]);
    d
}

} // verus!
