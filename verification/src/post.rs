//! The post, and the validation of what a form submits for one.

use vstd::prelude::*;
use crate::text::{field_view, is_blank, text_is_blank};

verus! {

/// A stored post. The table assigns `id` when the post is created and never
/// changes it; `title` and `text` are replaced as a whole by an update.
#[derive(Debug, PartialEq, Eq)]
pub struct Post {
    pub id: i32,
    pub title: String,
    pub text: String,
}

/// A post as a mathematical value.
pub struct PostView {
    pub id: int,
    pub title: Seq<char>,
    pub text: Seq<char>,
}

impl View for Post {
    type V = PostView;

    open spec fn view(&self) -> PostView {
        PostView { id: self.id as int, title: self.title@, text: self.text@ }
    }
}

impl Clone for Post {
    fn clone(&self) -> (copy: Self)
        ensures
            copy == *self,
    {
        Post { id: self.id, title: self.title.clone(), text: self.text.clone() }
    }
}

/// The fields of a submitted form. A field that the form did not carry is
/// `None`.
#[derive(Debug, PartialEq, Eq)]
pub struct PostForm {
    pub title: Option<String>,
    pub text: Option<String>,
}

/// The content of a post that passed validation: a title and a text, neither
/// of them blank.
#[derive(Debug, PartialEq, Eq)]
pub struct Draft {
    pub title: String,
    pub text: String,
}

/// Why a form was turned down.
#[derive(Debug, Clone, Copy, PartialEq, Eq)]
pub enum ValidationError {
    /// The form carried no title.
    MissingTitle,
    /// The title holds nothing but white space.
    BlankTitle,
    /// The form carried no text.
    MissingText,
    /// The text holds nothing but white space.
    BlankText,
}

/// The judgement on a form with the given fields. The title is looked at
/// first. A field passes if it is there and holds a character that is not
/// white space; it is kept as submitted, untrimmed.
pub open spec fn judged(title: Option<Seq<char>>, text: Option<Seq<char>>) -> Result<
    (Seq<char>, Seq<char>),
    ValidationError,
> {
    match title {
        None => Err(ValidationError::MissingTitle),
        Some(t) => if is_blank(t) {
            Err(ValidationError::BlankTitle)
        } else {
            match text {
                None => Err(ValidationError::MissingText),
                Some(b) => if is_blank(b) {
                    Err(ValidationError::BlankText)
                } else {
                    Ok((t, b))
                },
            }
        },
    }
}

impl PostForm {
    /// Validates the form. Gives the draft exactly when both fields are
    /// there and not blank, and otherwise the first fault found, the title's
    /// before the text's.
    pub fn validate(&self) -> (r: Result<Draft, ValidationError>)
        ensures
            match judged(field_view(self.title), field_view(self.text)) {
                Ok((title, text)) => r matches Ok(d) && d.title@ == title && d.text@ == text,
                Err(e) => r == Err::<Draft, ValidationError>(e),
            },
    {
        let title = match &self.title {
            None => {
                return Err(ValidationError::MissingTitle);
            },
            Some(t) => t,
        };
        if text_is_blank(title.as_str()) {
            return Err(ValidationError::BlankTitle);
        }
        let text = match &self.text {
            None => {
                return Err(ValidationError::MissingText);
            },
            Some(b) => b,
        };
        if text_is_blank(text.as_str()) {
            return Err(ValidationError::BlankText);
        }
        Ok(Draft { title: title.clone(), text: text.clone() })
    }
}

impl ValidationError {
    /// The sentence shown to the user for this fault.
    pub open spec fn sentence(self) -> Seq<char> {
        match self {
            ValidationError::MissingTitle => "Title is required"@,
            ValidationError::BlankTitle => "Title must not be blank"@,
            ValidationError::MissingText => "Text is required"@,
            ValidationError::BlankText => "Text must not be blank"@,
        }
    }

    /// The sentence shown to the user for this fault.
    pub fn message(&self) -> (s: String)
        ensures
            s@ == self.sentence(),
    {
        match self {
            ValidationError::MissingTitle => "Title is required".to_owned(),
            ValidationError::BlankTitle => "Title must not be blank".to_owned(),
            ValidationError::MissingText => "Text is required".to_owned(),
            ValidationError::BlankText => "Text must not be blank".to_owned(),
        }
    }
}

} // verus!
