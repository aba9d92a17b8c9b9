//! A DICOM file held in memory, and the reading of its tags.

use crate::dicom::decimal::{decimal_u16, parse_u16};
use crate::dicom::tags::{piece_views, split_values, values_of, RecordError};
use crate::field::Field;
use vstd::prelude::*;

verus! {

/// `dicom_object::FileDicomObject`: a data set read from a file, with its
/// file meta group. Nothing is known of what is inside but through the
/// functions below.
#[verifier::external_type_specification]
#[verifier::external_body]
#[verifier::reject_recursive_types(O)]
pub struct ExFileDicomObject<O>(dicom_object::FileDicomObject<O>);

/// `dicom_object::InMemDicomObject`: a data set held in memory.
#[verifier::external_type_specification]
#[verifier::external_body]
#[verifier::reject_recursive_types(D)]
pub struct ExInMemDicomObject<D>(dicom_object::InMemDicomObject<D>);

/// `dicom_object::StandardDataDictionary`: the dictionary that knows the
/// standard keywords.
#[verifier::external_type_specification]
#[verifier::external_body]
pub struct ExStandardDataDictionary(dicom_object::StandardDataDictionary);

/// `dicom_object::ReadError`: why a file could not be read.
#[verifier::external_type_specification]
#[verifier::external_body]
pub struct ExReadError(dicom_object::ReadError);

/// `dicom_core::DataElement`: one element of a data set.
#[verifier::external_type_specification]
#[verifier::external_body]
#[verifier::reject_recursive_types(I)]
#[verifier::reject_recursive_types(P)]
pub struct ExDataElement<I, P>(dicom_core::DataElement<I, P>);

/// What a parsed file holds, by the keyword of each element: the element's
/// value as text and as bytes, or `None` for an element whose value is not
/// primitive (a sequence of items or of fragments).
pub uninterp spec fn file_elements(
    file: dicom_object::FileDicomObject<
        dicom_object::InMemDicomObject<dicom_object::StandardDataDictionary>,
    >,
) -> Map<Seq<char>, Option<(Seq<char>, Seq<u8>)>>;

/// What one element holds: its value as text and as bytes, or `None` where
/// the value is not primitive.
pub uninterp spec fn element_value(
    element: dicom_core::DataElement<
        dicom_object::InMemDicomObject<dicom_object::StandardDataDictionary>,
        Vec<u8>,
    >,
) -> Option<(Seq<char>, Seq<u8>)>;

/// The texts that the bytes of a file hold once parsed, by the keyword of
/// each element, or `None` where the bytes cannot be parsed as a DICOM file.
/// It speaks of texts alone: the bytes of a binary value come in the byte
/// order of the machine that reads them, so they are no function of the
/// file.
pub uninterp spec fn parsed_texts(bytes: Seq<u8>) -> Option<Map<Seq<char>, Option<Seq<char>>>>;

/// The texts of what a file holds: for each element its value as text, or
/// `None` where the value is not primitive.
pub open spec fn texts_of(elements: Map<Seq<char>, Option<(Seq<char>, Seq<u8>)>>) -> Map<
    Seq<char>,
    Option<Seq<char>>,
> {
    Map::new(
        |tag: Seq<char>| elements.contains_key(tag),
        |tag: Seq<char>|
            match elements[tag] {
                Some(value) => Some(value.0),
                None => None,
            },
    )
}

/// `dicom_object::FileDicomObject::from_reader`, on a slice of bytes: the
/// file that the bytes encode, with the standard dictionary and the
/// registered transfer syntaxes. The contract names the texts that the file
/// holds as a function of the bytes, and says no more of it. The parser is
/// taken to report bytes that it cannot read as an error.
#[verifier::external_body]
fn read_file(bytes: &[u8]) -> (r: Result<
    dicom_object::FileDicomObject<
        dicom_object::InMemDicomObject<dicom_object::StandardDataDictionary>,
    >,
    dicom_object::ReadError,
>)
    ensures
        match r {
            Ok(file) => parsed_texts(bytes@) == Some(texts_of(file_elements(file))),
            Err(_) => parsed_texts(bytes@) is None,
        },
{
    dicom_object::FileDicomObject::from_reader(bytes)
}

/// `InMemDicomObject::element_by_name`: the element with the keyword `tag`.
/// The look-up fails where the dictionary does not know the keyword or the
/// file has no such element; the contract says so over `file_elements`.
#[verifier::external_body]
fn find_element<'a>(
    obj: &'a dicom_object::FileDicomObject<
        dicom_object::InMemDicomObject<dicom_object::StandardDataDictionary>,
    >,
    tag: &str,
) -> (r: Option<
    &'a dicom_core::DataElement<
        dicom_object::InMemDicomObject<dicom_object::StandardDataDictionary>,
        Vec<u8>,
    >,
>)
    ensures
        match r {
            Some(element) => file_elements(*obj).contains_key(tag@) && file_elements(*obj)[tag@]
                == element_value(*element),
            None => !file_elements(*obj).contains_key(tag@),
        },
{
    obj.element_by_name(tag).ok()
}

/// `DataElement::to_str`: the value of an element as text. The conversion
/// fails where the value is not primitive.
#[verifier::external_body]
fn element_text(
    element: &dicom_core::DataElement<
        dicom_object::InMemDicomObject<dicom_object::StandardDataDictionary>,
        Vec<u8>,
    >,
) -> (r: Option<String>)
    ensures
        match r {
            Some(text) => element_value(*element) is Some && element_value(*element).unwrap().0
                == text@,
            None => element_value(*element) is None,
        },
{
    element.to_str().ok().map(|text| text.into_owned())
}

/// `DataElement::to_bytes`: the value of an element as bytes. The
/// conversion fails where the value is not primitive.
#[verifier::external_body]
fn element_bytes(
    element: &dicom_core::DataElement<
        dicom_object::InMemDicomObject<dicom_object::StandardDataDictionary>,
        Vec<u8>,
    >,
) -> (r: Option<Vec<u8>>)
    ensures
        match r {
            Some(bytes) => element_value(*element) is Some && element_value(*element).unwrap().1
                == bytes@,
            None => element_value(*element) is None,
        },
{
    element.to_bytes().ok().map(|bytes| bytes.into_owned())
}

/// The value of the element with the keyword `tag`, as text, where the file
/// has that element and its value is primitive.
pub fn get_value(
    obj: &dicom_object::FileDicomObject<
        dicom_object::InMemDicomObject<dicom_object::StandardDataDictionary>,
    >,
    tag: &str,
) -> (r: Option<String>)
    ensures
        match r {
            Some(text) => text_of(texts_of(file_elements(*obj)), tag@) == Some(text@),
            None => text_of(texts_of(file_elements(*obj)), tag@) is None,
        },
{
    match find_element(obj, tag) {
        Some(element) => element_text(element),
        None => None,
    }
}

/// The value of the element with the keyword `tag`, as bytes, where the
/// file has that element and its value is primitive.
pub fn get_bytes(
    obj: &dicom_object::FileDicomObject<
        dicom_object::InMemDicomObject<dicom_object::StandardDataDictionary>,
    >,
    tag: &str,
) -> (r: Option<Vec<u8>>)
    ensures
        match r {
            Some(bytes) => bytes_of(file_elements(*obj), tag@) == Some(bytes@),
            None => bytes_of(file_elements(*obj), tag@) is None,
        },
{
    match find_element(obj, tag) {
        Some(element) => element_bytes(element),
        None => None,
    }
}

/// The text of the element `tag`, where the file has that element and its
/// value is primitive.
pub open spec fn text_of(texts: Map<Seq<char>, Option<Seq<char>>>, tag: Seq<char>) -> Option<
    Seq<char>,
> {
    if texts.contains_key(tag) {
        texts[tag]
    } else {
        None
    }
}

/// The bytes of the element `tag`, where the file has that element and its
/// value is primitive.
pub open spec fn bytes_of(
    elements: Map<Seq<char>, Option<(Seq<char>, Seq<u8>)>>,
    tag: Seq<char>,
) -> Option<Seq<u8>> {
    if elements.contains_key(tag) {
        match elements[tag] {
            Some(value) => Some(value.1),
            None => None,
        }
    } else {
        None
    }
}

/// The number that the element `tag` holds, where its text is an unsigned
/// decimal number of sixteen bits.
pub open spec fn number_of(texts: Map<Seq<char>, Option<Seq<char>>>, tag: Seq<char>) -> Option<
    u16,
> {
    match text_of(texts, tag) {
        Some(text) => decimal_u16(text),
        None => None,
    }
}

/// The scalars that a multi-valued text holds: each value of the text is
/// handed to the scalar's own reading, and those that it reads are kept, in
/// order. What is read is for the scalar to say; there are at most as many
/// scalars as values.
pub fn parse_scalars<T: Field>(text: &str) -> (r: Vec<T>)
    ensures
        r@.len() <= values_of(text@).len(),
{
    let pieces = split_values(text);
    assert(piece_views(pieces@).len() == pieces@.len());
    let mut out: Vec<T> = Vec::new();
    let mut k: usize = 0;
    while k < pieces.len()
        invariant
            k <= pieces.len(),
            out@.len() <= k,
        decreases pieces.len() - k,
    {
        match T::parse(pieces[k]) {
            Some(value) => {
                out.push(value);
            },
            None => {},
        }
        k += 1;
    }
    out
}

/// A DICOM file, parsed and held in memory.
pub struct DicomObject {
    pub dcm: dicom_object::FileDicomObject<
        dicom_object::InMemDicomObject<dicom_object::StandardDataDictionary>,
    >,
}

impl DicomObject {
    /// What the file holds, by the keyword of each element.
    pub open spec fn elements(&self) -> Map<Seq<char>, Option<(Seq<char>, Seq<u8>)>> {
        file_elements(self.dcm)
    }

    /// The texts that the file holds, by the keyword of each element.
    pub open spec fn texts(&self) -> Map<Seq<char>, Option<Seq<char>>> {
        texts_of(self.elements())
    }

    /// The file that `bytes` encode. Fails where they cannot be parsed.
    pub fn from_bytes(bytes: &[u8]) -> (r: Result<DicomObject, RecordError>)
        ensures
            match r {
                Ok(obj) => parsed_texts(bytes@) == Some(obj.texts()),
                Err(e) => parsed_texts(bytes@) is None && e == RecordError::Unreadable,
            },
    {
        match read_file(bytes) {
            Ok(dcm) => Ok(DicomObject { dcm }),
            Err(_) => Err(RecordError::Unreadable),
        }
    }

    /// The text of the element `tag`.
    pub fn text(&self, tag: &str) -> (r: Option<String>)
        ensures
            match r {
                Some(text) => text_of(self.texts(), tag@) == Some(text@),
                None => text_of(self.texts(), tag@) is None,
            },
    {
        get_value(&self.dcm, tag)
    }

    /// The bytes of the element `tag`. There are bytes exactly where there
    /// is a text.
    pub fn bytes(&self, tag: &str) -> (r: Option<Vec<u8>>)
        ensures
            match r {
                Some(bytes) => bytes_of(self.elements(), tag@) == Some(bytes@),
                None => bytes_of(self.elements(), tag@) is None,
            },
            r is Some <==> text_of(self.texts(), tag@) is Some,
    {
        get_bytes(&self.dcm, tag)
    }

    /// The number that the element `tag` holds.
    pub fn number(&self, tag: &str) -> (r: Option<u16>)
        ensures
            r == number_of(self.texts(), tag@),
    {
        match get_value(&self.dcm, tag) {
            Some(text) => parse_u16(text.as_str()),
            None => None,
        }
    }

    /// The scalar that the element `tag` holds: what the scalar's own
    /// reading makes of the element's text. Without a text there is no
    /// scalar.
    pub fn scalar<T: Field>(&self, tag: &str) -> (r: Option<T>)
        ensures
            text_of(self.texts(), tag@) is None ==> r is None,
    {
        match get_value(&self.dcm, tag) {
            Some(text) => T::parse(text.as_str()),
            None => None,
        }
    }

    /// The scalars that the element `tag` holds: those of the values of its
    /// text that the scalar's own reading reads, in order. There are scalars,
    /// if none at all, exactly where there is a text.
    pub fn scalars<T: Field>(&self, tag: &str) -> (r: Option<Vec<T>>)
        ensures
            r is Some <==> text_of(self.texts(), tag@) is Some,
            r is Some ==> r.unwrap()@.len() <= values_of(
                text_of(self.texts(), tag@).unwrap(),
            ).len(),
    {
        match get_value(&self.dcm, tag) {
            Some(text) => Some(parse_scalars(text.as_str())),
            None => None,
        }
    }
}

} // verus!
