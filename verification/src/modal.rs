//! The modal editor: transient sub-state for the add/edit forms. Four raw
//! text buffers, a cyclic focus, and a modal-scoped error. Nothing is parsed
//! until the explicit validate step.

use vstd::prelude::*;
use crate::error::AppError;
use crate::record::FruitDimensions;
use crate::text::{
    classify_dimension, is_digit_char, is_number_text, is_positive_number_text, trim_spec,
    trimmed, pop_char, push_char, DimCheck,
};

verus! {

/// The input field a modal currently focuses.
#[derive(Debug, Clone, Copy, PartialEq, Eq, Structural)]
pub enum InputField {
    Name,
    Length,
    Width,
    Height,
}

/// The field after `f` in Tab order, wrapping from Height to Name.
pub open spec fn field_after(f: InputField) -> InputField {
    match f {
        InputField::Name => InputField::Length,
        InputField::Length => InputField::Width,
        InputField::Width => InputField::Height,
        InputField::Height => InputField::Name,
    }
}

/// The field before `f` in Tab order, wrapping from Name to Height.
pub open spec fn field_before(f: InputField) -> InputField {
    match f {
        InputField::Name => InputField::Height,
        InputField::Length => InputField::Name,
        InputField::Width => InputField::Length,
        InputField::Height => InputField::Width,
    }
}

impl InputField {
    /// Move to the next field (Tab navigation).
    pub fn next(self) -> (r: Self)
        ensures
            r == field_after(self),
    {
        match self {
            InputField::Name => InputField::Length,
            InputField::Length => InputField::Width,
            InputField::Width => InputField::Height,
            InputField::Height => InputField::Name,
        }
    }

    /// Move to the previous field (Shift+Tab navigation).
    pub fn prev(self) -> (r: Self)
        ensures
            r == field_before(self),
    {
        match self {
            InputField::Name => InputField::Height,
            InputField::Length => InputField::Name,
            InputField::Width => InputField::Length,
            InputField::Height => InputField::Width,
        }
    }
}

/// Modal state for adding or editing a record.
#[derive(Debug, Clone)]
pub struct ModalState {
    /// Raw text buffers for the record being edited.
    pub name: String,
    pub length: String,
    pub width: String,
    pub height: String,
    /// Which field is currently focused.
    pub focused_field: InputField,
    /// Error message scoped to this modal.
    pub error: Option<String>,
}

/// A character the numeric buffers accept: a digit or a dot.
pub open spec fn numeric_char_ok(c: char) -> bool {
    is_digit_char(c) || c == '.'
}

/// The buffers parse and build a record: the trimmed name is non-empty and
/// the three dimension texts are positive numbers.
pub open spec fn modal_valid(m: ModalState) -> bool {
    &&& trim_spec(m.name@).len() > 0
    &&& is_positive_number_text(m.length@)
    &&& is_positive_number_text(m.width@)
    &&& is_positive_number_text(m.height@)
}

/// The message of the first validation failure, checked in the order name,
/// length, width, height, then positivity of all three values.
pub open spec fn validation_message(m: ModalState) -> Seq<char>
    recommends
        !modal_valid(m),
{
    if trim_spec(m.name@).len() == 0 {
        "Name cannot be empty"@
    } else if !is_number_text(m.length@) {
        "Length must be a valid number"@
    } else if !is_number_text(m.width@) {
        "Width must be a valid number"@
    } else if !is_number_text(m.height@) {
        "Height must be a valid number"@
    } else {
        "All dimensions must be positive"@
    }
}


/// The four buffers of `a` and `b` hold the same text.
pub open spec fn same_buffers(a: ModalState, b: ModalState) -> bool {
    &&& b.name@ == a.name@
    &&& b.length@ == a.length@
    &&& b.width@ == a.width@
    &&& b.height@ == a.height@
}

/// `b` is `a` with the focus moved one field forward.
pub open spec fn focus_next_rel(a: ModalState, b: ModalState) -> bool {
    &&& same_buffers(a, b)
    &&& b.error == a.error
    &&& b.focused_field == field_after(a.focused_field)
}

/// `b` is `a` with the focus moved one field back.
pub open spec fn focus_prev_rel(a: ModalState, b: ModalState) -> bool {
    &&& same_buffers(a, b)
    &&& b.error == a.error
    &&& b.focused_field == field_before(a.focused_field)
}

/// `b` is `a` after typing `c`: the character lands at the end of the
/// focused buffer and the modal error is cleared, except that the numeric
/// buffers silently drop anything but digits and dots.
pub open spec fn insert_char_rel(a: ModalState, b: ModalState, c: char) -> bool {
    &&& b.focused_field == a.focused_field
    &&& a.focused_field is Name ==> {
        &&& b.name@ == a.name@.push(c)
        &&& b.length@ == a.length@
        &&& b.width@ == a.width@
        &&& b.height@ == a.height@
        &&& b.error is None
    }
    &&& a.focused_field is Length ==> {
        &&& b.length@ == if numeric_char_ok(c) {
            a.length@.push(c)
        } else {
            a.length@
        }
        &&& b.name@ == a.name@
        &&& b.width@ == a.width@
        &&& b.height@ == a.height@
        &&& b.error == if numeric_char_ok(c) {
            None::<String>
        } else {
            a.error
        }
    }
    &&& a.focused_field is Width ==> {
        &&& b.width@ == if numeric_char_ok(c) {
            a.width@.push(c)
        } else {
            a.width@
        }
        &&& b.name@ == a.name@
        &&& b.length@ == a.length@
        &&& b.height@ == a.height@
        &&& b.error == if numeric_char_ok(c) {
            None::<String>
        } else {
            a.error
        }
    }
    &&& a.focused_field is Height ==> {
        &&& b.height@ == if numeric_char_ok(c) {
            a.height@.push(c)
        } else {
            a.height@
        }
        &&& b.name@ == a.name@
        &&& b.length@ == a.length@
        &&& b.width@ == a.width@
        &&& b.error == if numeric_char_ok(c) {
            None::<String>
        } else {
            a.error
        }
    }
}

/// `b` is `a` with the last character of the focused buffer removed (a
/// no-op on an empty buffer); the modal error is left as it is.
pub open spec fn backspace_rel(a: ModalState, b: ModalState) -> bool {
    &&& b.focused_field == a.focused_field
    &&& b.error == a.error
    &&& b.name@ == if a.focused_field is Name && a.name@.len() > 0 {
        a.name@.drop_last()
    } else {
        a.name@
    }
    &&& b.length@ == if a.focused_field is Length && a.length@.len() > 0 {
        a.length@.drop_last()
    } else {
        a.length@
    }
    &&& b.width@ == if a.focused_field is Width && a.width@.len() > 0 {
        a.width@.drop_last()
    } else {
        a.width@
    }
    &&& b.height@ == if a.focused_field is Height && a.height@.len() > 0 {
        a.height@.drop_last()
    } else {
        a.height@
    }
}

/// `f` is the record the buffers of `m` describe: the trimmed name and the
/// three dimension texts as they stand.
pub open spec fn built_record_matches(f: FruitDimensions, m: ModalState) -> bool {
    &&& f.name@ == trim_spec(m.name@)
    &&& f.length@ == m.length@
    &&& f.width@ == m.width@
    &&& f.height@ == m.height@
}

/// `b` is `a` after a failed validation: buffers and focus intact, the
/// modal error set to the validation message.
pub open spec fn validate_fail_rel(a: ModalState, b: ModalState) -> bool {
    &&& b.same_fields(a)
    &&& b.error matches Some(em) && em@ == validation_message(a)
}

impl ModalState {
    /// The four buffers and the focus of `self` and `other` agree; the
    /// modal error may differ.
    pub open spec fn same_fields(self, other: ModalState) -> bool {
        &&& self.name@ == other.name@
        &&& self.length@ == other.length@
        &&& self.width@ == other.width@
        &&& self.height@ == other.height@
        &&& self.focused_field == other.focused_field
    }

    /// A fresh modal for adding a record: empty buffers, focus on the name.
    pub fn new() -> (m: Self)
        ensures
            m.name@.len() == 0,
            m.length@.len() == 0,
            m.width@.len() == 0,
            m.height@.len() == 0,
            m.focused_field == InputField::Name,
            m.error is None,
    {
        ModalState {
            name: String::new(),
            length: String::new(),
            width: String::new(),
            height: String::new(),
            focused_field: InputField::Name,
            error: None,
        }
    }

    /// A modal pre-filled with an existing record's data.
    pub fn from_fruit(fruit: &FruitDimensions) -> (m: Self)
        ensures
            m.name@ == fruit.name@,
            m.length@ == fruit.length@,
            m.width@ == fruit.width@,
            m.height@ == fruit.height@,
            m.focused_field == InputField::Name,
            m.error is None,
    {
        ModalState {
            name: fruit.name.clone(),
            length: fruit.length.clone(),
            width: fruit.width.clone(),
            height: fruit.height.clone(),
            focused_field: InputField::Name,
            error: None,
        }
    }

    /// Move focus to the next field.
    pub fn next_field(&mut self)
        ensures
            focus_next_rel(*old(self), *final(self)),
    {
        self.focused_field = self.focused_field.next();
    }

    /// Move focus to the previous field.
    pub fn prev_field(&mut self)
        ensures
            focus_prev_rel(*old(self), *final(self)),
    {
        self.focused_field = self.focused_field.prev();
    }

    /// Append a character to the focused buffer and clear the modal error.
    /// The numeric buffers accept only digits and dots; any other character
    /// is silently dropped there, and the modal is then left untouched.
    pub fn insert_char(&mut self, c: char)
        ensures
            insert_char_rel(*old(self), *final(self), c),
    {
        match self.focused_field {
            InputField::Name => {
                push_char(&mut self.name, c);
                self.error = None;
            },
            InputField::Length => {
                if crate::text::is_digit(c) || c == '.' {
                    push_char(&mut self.length, c);
                    self.error = None;
                }
            },
            InputField::Width => {
                if crate::text::is_digit(c) || c == '.' {
                    push_char(&mut self.width, c);
                    self.error = None;
                }
            },
            InputField::Height => {
                if crate::text::is_digit(c) || c == '.' {
                    push_char(&mut self.height, c);
                    self.error = None;
                }
            },
        }
    }

    /// Remove the last character from the focused buffer; a no-op on an
    /// empty buffer. The modal error is left as it is.
    pub fn backspace(&mut self)
        ensures
            backspace_rel(*old(self), *final(self)),
    {
        match self.focused_field {
            InputField::Name => {
                pop_char(&mut self.name);
            },
            InputField::Length => {
                pop_char(&mut self.length);
            },
            InputField::Width => {
                pop_char(&mut self.width);
            },
            InputField::Height => {
                pop_char(&mut self.height);
            },
        }
    }

    /// Validate the buffers and build a record.
    ///
    /// Fails on the first problem in the order name, length, width, height,
    /// positivity; on failure the modal's error is set to the same message
    /// the call returns and the buffers are kept intact. On success the
    /// modal is left exactly as it was and the record holds the trimmed
    /// name and the dimension texts.
    pub fn validate_and_build(&mut self) -> (r: Result<FruitDimensions, AppError>)
        ensures
            final(self).same_fields(*old(self)),
            modal_valid(*old(self)) ==> {
                &&& r matches Ok(f)
                &&& built_record_matches(f, *old(self))
                &&& f.wf()
                &&& final(self).error == old(self).error
            },
            !modal_valid(*old(self)) ==> {
                &&& r matches Err(e)
                &&& e matches AppError::Validation(msg)
                &&& msg@ == validation_message(*old(self))
                &&& validate_fail_rel(*old(self), *final(self))
            },
    {
        let trimmed_name = trimmed(self.name.as_str());
        if trimmed_name.as_str().unicode_len() == 0 {
            let msg = String::from_str("Name cannot be empty");
            self.error = Some(msg.clone());
            return Err(AppError::Validation(msg));
        }
        let length_check = classify_dimension(self.length.as_str());
        if length_check == DimCheck::Invalid {
            let msg = String::from_str("Length must be a valid number");
            self.error = Some(msg.clone());
            return Err(AppError::Validation(msg));
        }
        let width_check = classify_dimension(self.width.as_str());
        if width_check == DimCheck::Invalid {
            let msg = String::from_str("Width must be a valid number");
            self.error = Some(msg.clone());
            return Err(AppError::Validation(msg));
        }
        let height_check = classify_dimension(self.height.as_str());
        if height_check == DimCheck::Invalid {
            let msg = String::from_str("Height must be a valid number");
            self.error = Some(msg.clone());
            return Err(AppError::Validation(msg));
        }
        if length_check != DimCheck::Positive || width_check != DimCheck::Positive
            || height_check != DimCheck::Positive {
            let msg = String::from_str("All dimensions must be positive");
            self.error = Some(msg.clone());
            return Err(AppError::Validation(msg));
        }
        proof {
            crate::text::lemma_trim_idempotent(self.name@);
        }
        Ok(FruitDimensions {
            name: trimmed_name,
            length: self.length.clone(),
            width: self.width.clone(),
            height: self.height.clone(),
        })
    }

    /// Clear the modal error.
    pub fn clear_error(&mut self)
        ensures
            final(self).same_fields(*old(self)),
            final(self).error is None,
    {
        self.error = None;
    }
}

impl Default for ModalState {
    /// The same fresh modal `new` builds.
    fn default() -> (m: Self)
        ensures
            m.name@.len() == 0,
            m.length@.len() == 0,
            m.width@.len() == 0,
            m.height@.len() == 0,
            m.focused_field == InputField::Name,
            m.error is None,
    {
        Self::new()
    }
}

} // verus!
