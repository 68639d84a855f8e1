use vstd::prelude::*;

verus! {

/// Payload of a text-input event: the control's current text.
pub struct InputEventData {
    pub value: String,
}

/// One selected file, as a file-input change event lists it.
pub struct FileMeta {
    pub name: String,
}

/// Record delivered to the user's reducer once a file read completes.
pub struct FileData {
    pub name: String,
    pub content: Vec<u8>,
}

/// Payload of a change event: which kind of control it came from, with the
/// data read off that control.
pub enum ChangeValue {
    /// A plain value-carrying control, such as a text input.
    Value(String),
    /// A select element, collapsed to its selected option's value.
    Select(String),
    /// A file input, collapsed to the metadata of the chosen files.
    Files(Vec<FileMeta>),
}

/// Failure surfaced on programmer misuse of the binder.
pub enum FormError {
    /// A select-element callback was fired from a control that is no select
    /// element.
    SelectRequired,
}

/// The text a text-input event carries, delivered uninterpreted.
pub fn input_text(e: InputEventData) -> (r: String)
    ensures
        r == e.value,
{
    e.value
}

/// The selected value of a change event that must come from a select
/// element; any other control is programmer misuse.
pub fn select_text(e: ChangeValue) -> (r: Result<String, FormError>)
    ensures
        e matches ChangeValue::Select(v) ==> r == Ok::<String, FormError>(v),
        !(e is Select) ==> r == Err::<String, FormError>(FormError::SelectRequired),
{
    match e {
        ChangeValue::Select(v) => Ok(v),
        _ => Err(FormError::SelectRequired),
    }
}

/// The files a change event lists; empty when the event does not come from
/// a file input.
pub fn change_files(e: ChangeValue) -> (r: Vec<FileMeta>)
    ensures
        e matches ChangeValue::Files(fs) ==> r == fs,
        !(e is Files) ==> r@ == Seq::<FileMeta>::empty(),
{
    match e {
        ChangeValue::Files(fs) => fs,
        _ => Vec::new(),
    }
}

} // verus!
