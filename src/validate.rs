//! Checks on the metadata of a relationship before it is stored.
use vstd::prelude::*;
use vstd::string::*;

verus! {

/// Longest accepted name, in characters.
pub const MAX_NAME_CHARS: usize = 30;

/// Longest accepted description, in characters.
pub const MAX_DESCRIPTION_CHARS: usize = 300;

/// Why a relationship's metadata was refused.
#[derive(Debug, Clone, Copy, PartialEq, Eq, Structural)]
pub enum ValidationError {
    NameEmpty,
    NameTooLong,
    DescriptionTooLong,
    InvalidColor,
}

impl ValidationError {
    /// The field that the error is about.
    pub fn field(&self) -> (r: &'static str)
        ensures
            r@ == field_name(*self),
    {
        proof {
            reveal_strlit("name");
            reveal_strlit("description");
            reveal_strlit("color");
        }
        match self {
            ValidationError::NameEmpty => "name",
            ValidationError::NameTooLong => "name",
            ValidationError::DescriptionTooLong => "description",
            ValidationError::InvalidColor => "color",
        }
    }
}

pub open spec fn field_name(e: ValidationError) -> Seq<char> {
    match e {
        ValidationError::NameEmpty => seq!['n', 'a', 'm', 'e'],
        ValidationError::NameTooLong => seq!['n', 'a', 'm', 'e'],
        ValidationError::DescriptionTooLong => seq!['d', 'e', 's', 'c', 'r', 'i', 'p', 't', 'i', 'o', 'n'],
        ValidationError::InvalidColor => seq!['c', 'o', 'l', 'o', 'r'],
    }
}

/// A request to create a relationship: its metadata, the creating user and
/// the usernames of the users proposed as participants.
pub struct CreateRelationship {
    pub name: String,
    pub color: Option<String>,
    pub description: Option<String>,
    pub user_creator: i32,
    pub proposed_users: Vec<String>,
}

/// A name is accepted when it has from one to thirty characters.
pub open spec fn name_ok(name: Seq<char>) -> bool {
    1 <= name.len() <= MAX_NAME_CHARS
}

/// The error for a refused name: empty, or longer than thirty characters.
pub open spec fn name_error(name: Seq<char>) -> ValidationError {
    if name.len() == 0 {
        ValidationError::NameEmpty
    } else {
        ValidationError::NameTooLong
    }
}

/// A description, when present, has at most three hundred characters.
pub open spec fn description_ok(description: Option<Seq<char>>) -> bool {
    match description {
        None => true,
        Some(d) => d.len() <= MAX_DESCRIPTION_CHARS,
    }
}

/// A color, when present, starts with `#` and has four or seven characters
/// in all. The remaining characters are not inspected.
pub open spec fn color_ok(color: Option<Seq<char>>) -> bool {
    match color {
        None => true,
        Some(c) => c.len() > 0 && c[0] == '#' && (c.len() == 4 || c.len() == 7),
    }
}

pub open spec fn opt_view(s: Option<String>) -> Option<Seq<char>> {
    match s {
        None => None,
        Some(x) => Some(x@),
    }
}

/// The first failing check, in the order name, description, color.
pub open spec fn first_violation(
    name: Seq<char>,
    color: Option<Seq<char>>,
    description: Option<Seq<char>>,
) -> Option<ValidationError> {
    if !name_ok(name) {
        Some(name_error(name))
    } else if !description_ok(description) {
        Some(ValidationError::DescriptionTooLong)
    } else if !color_ok(color) {
        Some(ValidationError::InvalidColor)
    } else {
        None
    }
}

/// Checks a name on its own.
pub fn check_name(name: &str) -> (r: Result<bool, ValidationError>)
    ensures
        r == (if name_ok(name@) { Ok::<bool, ValidationError>(true) } else { Err(name_error(name@)) }),
{
    let n = name.unicode_len();
    if n == 0 {
        Err(ValidationError::NameEmpty)
    } else if n > MAX_NAME_CHARS {
        Err(ValidationError::NameTooLong)
    } else {
        Ok(true)
    }
}

/// Checks an optional description on its own.
pub fn check_description(description: &Option<String>) -> (r: Result<bool, ValidationError>)
    ensures
        r == (if description_ok(opt_view(*description)) {
            Ok::<bool, ValidationError>(true)
        } else {
            Err(ValidationError::DescriptionTooLong)
        }),
{
    match description {
        None => Ok(true),
        Some(d) => {
            if d.as_str().unicode_len() > MAX_DESCRIPTION_CHARS {
                Err(ValidationError::DescriptionTooLong)
            } else {
                Ok(true)
            }
        },
    }
}

/// Checks an optional color on its own.
pub fn check_color(color: &Option<String>) -> (r: Result<bool, ValidationError>)
    ensures
        r == (if color_ok(opt_view(*color)) {
            Ok::<bool, ValidationError>(true)
        } else {
            Err(ValidationError::InvalidColor)
        }),
{
    match color {
        None => Ok(true),
        Some(c) => {
            let s = c.as_str();
            let n = s.unicode_len();
            if n == 0 {
                Err(ValidationError::InvalidColor)
            } else if s.get_char(0) != '#' {
                Err(ValidationError::InvalidColor)
            } else if n == 4 || n == 7 {
                Ok(true)
            } else {
                Err(ValidationError::InvalidColor)
            }
        },
    }
}

impl CreateRelationship {
    pub open spec fn violation(&self) -> Option<ValidationError> {
        first_violation(self.name@, opt_view(self.color), opt_view(self.description))
    }

    /// Runs the checks in the order name, description, color and stops at the
    /// first that fails.
    pub fn validate_struct(&self) -> (r: Result<bool, ValidationError>)
        ensures
            match self.violation() {
                None => r == Ok::<bool, ValidationError>(true),
                Some(e) => r == Err::<bool, ValidationError>(e),
            },
    {
        self.validate_name()?;
        self.validate_description()?;
        self.validate_color()?;
        Ok(true)
    }

    pub fn validate_name(&self) -> (r: Result<bool, ValidationError>)
        ensures
            r is Ok <==> name_ok(self.name@),
            r is Ok ==> r == Ok::<bool, ValidationError>(true),
            r is Err ==> r == Err::<bool, ValidationError>(name_error(self.name@)),
    {
        check_name(self.name.as_str())
    }

    pub fn validate_description(&self) -> (r: Result<bool, ValidationError>)
        ensures
            r is Ok <==> description_ok(opt_view(self.description)),
            r is Ok ==> r == Ok::<bool, ValidationError>(true),
            r is Err ==> r == Err::<bool, ValidationError>(ValidationError::DescriptionTooLong),
    {
        check_description(&self.description)
    }

    pub fn validate_color(&self) -> (r: Result<bool, ValidationError>)
        ensures
            r is Ok <==> color_ok(opt_view(self.color)),
            r is Ok ==> r == Ok::<bool, ValidationError>(true),
            r is Err ==> r == Err::<bool, ValidationError>(ValidationError::InvalidColor),
    {
        check_color(&self.color)
    }
}

} // verus!
