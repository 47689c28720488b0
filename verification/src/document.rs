//! Reading request documents.
//!
//! Documents stay in their encoded form and are decoded by `bson` as they are read.
//! Verified code sees a document through its bytes: everything the decoder reports of
//! a document is a function of them.

use vstd::prelude::*;
use bson::RawBsonRef;
use bson::RawDocument;

verus! {

/// An encoded BSON document, borrowed.
#[verifier::external_type_specification]
#[verifier::external_body]
pub struct ExRawDocument(bson::RawDocument);

/// What the planner reads of one value of a document.
#[derive(Clone, Copy)]
pub enum Element<'a> {
    /// An embedded document.
    Document(&'a RawDocument),
    /// A string.
    Text(&'a str),
    /// A 32-bit integer.
    Int32(i32),
    /// A value of any other type.
    Other,
}

/// The mathematical content of an [`Element`].
pub enum ElementModel {
    Document(Seq<u8>),
    Text(Seq<char>),
    Int32(i32),
    Other,
}

/// One step of walking through a document: an entry, or the failure to decode one.
pub enum ItemModel {
    Entry { key: Seq<char>, value: ElementModel },
    Malformed(bson::raw::Error),
}

/// The outcome of looking a key up in a document.
pub enum LookupModel {
    Found(ElementModel),
    Absent,
    Malformed(bson::raw::Error),
}

/// The bytes that a document consists of.
pub uninterp spec fn document_bytes(doc: &RawDocument) -> Seq<u8>;

/// What `bson` yields, item by item, when it walks through the document with these bytes.
pub uninterp spec fn document_items(bytes: Seq<u8>) -> Seq<ItemModel>;

/// What `bson` finds under `key` in the document with these bytes.
pub uninterp spec fn found_element(bytes: Seq<u8>, key: Seq<char>) -> LookupModel;

/// The items that a cursor has yet to yield.
pub uninterp spec fn pending_items(cursor: EntryCursor) -> Seq<ItemModel>;

impl<'a> View for Element<'a> {
    type V = ElementModel;

    open spec fn view(&self) -> ElementModel {
        match *self {
            Element::Document(doc) => ElementModel::Document(document_bytes(doc)),
            Element::Text(text) => ElementModel::Text(text@),
            Element::Int32(number) => ElementModel::Int32(number),
            Element::Other => ElementModel::Other,
        }
    }
}

/// The content of what a lookup returned.
pub open spec fn lookup_model(found: Result<Option<Element>, bson::raw::Error>) -> LookupModel {
    match found {
        Ok(Some(element)) => LookupModel::Found(element@),
        Ok(None) => LookupModel::Absent,
        Err(error) => LookupModel::Malformed(error),
    }
}

/// The content of what a cursor yielded.
pub open spec fn item_model(item: Result<(&str, Element), bson::raw::Error>) -> ItemModel {
    match item {
        Ok((key, value)) => ItemModel::Entry { key: key@, value: value@ },
        Err(error) => ItemModel::Malformed(error),
    }
}

/// A position in a document that is being walked through.
///
/// Holds the iterator of `bson::RawDocument`, a type that `bson` does not export by name.
#[verifier::external_body]
pub struct EntryCursor<'a> {
    entries: <&'a RawDocument as IntoIterator>::IntoIter,
}

/// Looks `key` up with `bson::RawDocument::get`.
///
/// Trusted: the outcome, value or error, is the one that `found_element` names for the
/// document's bytes and the key. A value that is neither an embedded document nor a
/// string nor a 32-bit integer comes back as `Other`.
#[verifier::external_body]
pub(crate) fn lookup<'a>(doc: &'a RawDocument, key: &str) -> (found: Result<Option<Element<'a>>, bson::raw::Error>)
    ensures
        lookup_model(found) == found_element(document_bytes(doc), key@),
{
    Ok(match doc.get(key)? {
        Some(RawBsonRef::Document(inner)) => Some(Element::Document(inner)),
        Some(RawBsonRef::String(text)) => Some(Element::Text(text)),
        Some(RawBsonRef::Int32(number)) => Some(Element::Int32(number)),
        Some(_) => Some(Element::Other),
        None => None,
    })
}

/// Starts a walk through `doc` with `bson::RawDocument::iter`.
///
/// Trusted: the cursor has yet to yield every item of the document.
#[verifier::external_body]
pub(crate) fn open_cursor<'a>(doc: &'a RawDocument) -> (cursor: EntryCursor<'a>)
    ensures
        pending_items(cursor) == document_items(document_bytes(doc)),
{
    EntryCursor { entries: doc.iter() }
}

/// Takes the next item from the cursor with the iterator's `next`.
///
/// Trusted: the call yields the first pending item, entry or error, and leaves the
/// others pending; with nothing pending it yields `None`, and goes on doing so. A value
/// that is neither an embedded document nor a string nor a 32-bit integer comes back
/// as `Other`.
#[verifier::external_body]
pub(crate) fn next_item<'a>(cursor: &mut EntryCursor<'a>) -> (item: Option<Result<(&'a str, Element<'a>), bson::raw::Error>>)
    ensures
        match item {
            Some(item) => {
                &&& pending_items(*old(cursor)).len() > 0
                &&& item_model(item) == pending_items(*old(cursor)).first()
                &&& pending_items(*final(cursor)) == pending_items(*old(cursor)).drop_first()
            },
            None => {
                &&& pending_items(*old(cursor)).len() == 0
                &&& pending_items(*final(cursor)).len() == 0
            },
        },
{
    Some(match cursor.entries.next()? {
        Ok((key, RawBsonRef::Document(inner))) => Ok((key, Element::Document(inner))),
        Ok((key, RawBsonRef::String(text))) => Ok((key, Element::Text(text))),
        Ok((key, RawBsonRef::Int32(number))) => Ok((key, Element::Int32(number))),
        Ok((key, _)) => Ok((key, Element::Other)),
        Err(error) => Err(error),
    })
}

/// Whether two strings hold the same text, by `==` on `str`.
///
/// Trusted: `==` on `str` compares the characters.
#[verifier::external_body]
pub(crate) fn same_text(left: &str, right: &str) -> (same: bool)
    ensures
        same == (left@ == right@),
{
    left == right
}

} // verus!
