//! The small state types of the interface: which panel is active, which
//! field of the detail pane has the focus, and the order in which the focus
//! moves from field to field.

use vstd::prelude::*;
use crate::models::AuthType;

verus! {

/// The two panels of the main screen.
#[derive(Clone, Copy, Debug, PartialEq, Eq, Structural)]
pub enum ActivePanel {
    Tree,
    Details,
}

/// A field of the detail pane. `NoField` stands for no focus at all.
#[derive(Clone, Copy, Debug, PartialEq, Eq, Structural)]
pub enum DetailField {
    Url,
    Body,
    Params,
    Headers,
    AuthType,
    AuthUsername,
    AuthPassword,
    NoField,
}

/// Which of the two inputs of a new header takes the keys.
#[derive(Clone, Copy, Debug, PartialEq, Eq, Structural)]
pub enum HeaderInputMode {
    Key,
    Value,
}

/// Which of the two inputs of a new parameter takes the keys.
#[derive(Clone, Copy, Debug, PartialEq, Eq, Structural)]
pub enum ParameterInputMode {
    Key,
    Value,
}

impl HeaderInputMode {
    pub open spec fn other(self) -> HeaderInputMode {
        match self {
            HeaderInputMode::Key => HeaderInputMode::Value,
            HeaderInputMode::Value => HeaderInputMode::Key,
        }
    }

    /// The other of the two modes.
    pub fn toggled(&self) -> (r: HeaderInputMode)
        ensures
            r == self.other(),
    {
        match self {
            HeaderInputMode::Key => HeaderInputMode::Value,
            HeaderInputMode::Value => HeaderInputMode::Key,
        }
    }
}

impl ParameterInputMode {
    pub open spec fn other(self) -> ParameterInputMode {
        match self {
            ParameterInputMode::Key => ParameterInputMode::Value,
            ParameterInputMode::Value => ParameterInputMode::Key,
        }
    }

    /// The other of the two modes.
    pub fn toggled(&self) -> (r: ParameterInputMode)
        ensures
            r == self.other(),
    {
        match self {
            ParameterInputMode::Key => ParameterInputMode::Value,
            ParameterInputMode::Value => ParameterInputMode::Key,
        }
    }
}

/// The fields through which the focus cycles, in order, for a request with
/// the given kind of authentication.
pub open spec fn field_cycle(auth: AuthType) -> Seq<DetailField> {
    match auth {
        AuthType::NoAuth => seq![
            DetailField::Url,
            DetailField::Body,
            DetailField::Params,
            DetailField::Headers,
            DetailField::AuthType,
        ],
        AuthType::Basic => seq![
            DetailField::Url,
            DetailField::Body,
            DetailField::Params,
            DetailField::Headers,
            DetailField::AuthType,
            DetailField::AuthUsername,
            DetailField::AuthPassword,
        ],
    }
}

/// Whether `field` is one of the fields of the cycle for `auth`.
pub open spec fn in_cycle(auth: AuthType, field: DetailField) -> bool {
    field_cycle(auth).contains(field)
}

/// The place of `field` in the cycle for `auth`.
pub open spec fn cycle_index(auth: AuthType, field: DetailField) -> int {
    field_cycle(auth).index_of(field)
}

impl DetailField {
    /// The field after `self` in the cycle for `auth`, wrapping round at the
    /// end. From a field outside the cycle the focus goes to the first field.
    pub open spec fn next_in(self, auth: AuthType) -> DetailField {
        let cycle = field_cycle(auth);
        if in_cycle(auth, self) {
            cycle[(cycle_index(auth, self) + 1) % (cycle.len() as int)]
        } else {
            cycle[0]
        }
    }

    /// The field before `self` in the cycle for `auth`, wrapping round at the
    /// start. From a field outside the cycle the focus goes to the last field.
    pub open spec fn previous_in(self, auth: AuthType) -> DetailField {
        let cycle = field_cycle(auth);
        if in_cycle(auth, self) {
            cycle[(cycle_index(auth, self) + cycle.len() - 1) % (cycle.len() as int)]
        } else {
            cycle[cycle.len() - 1]
        }
    }

    /// Whether the field is edited through a text buffer.
    pub open spec fn is_text(self) -> bool {
        self == DetailField::Url || self == DetailField::Body || self == DetailField::AuthUsername
            || self == DetailField::AuthPassword
    }

    pub fn has_text_buffer(&self) -> (r: bool)
        ensures
            r == self.is_text(),
    {
        match self {
            DetailField::Url | DetailField::Body | DetailField::AuthUsername | DetailField::AuthPassword => true,
            _ => false,
        }
    }

    /// Moves the focus one field forward.
    pub fn next(&self, auth: AuthType) -> (r: DetailField)
        ensures
            r == self.next_in(auth),
            in_cycle(auth, r),
    {
        proof {
            lemma_cycle_places(auth);
        }
        match auth {
            AuthType::NoAuth => match self {
                DetailField::Url => DetailField::Body,
                DetailField::Body => DetailField::Params,
                DetailField::Params => DetailField::Headers,
                DetailField::Headers => DetailField::AuthType,
                DetailField::AuthType => DetailField::Url,
                _ => DetailField::Url,
            },
            AuthType::Basic => match self {
                DetailField::Url => DetailField::Body,
                DetailField::Body => DetailField::Params,
                DetailField::Params => DetailField::Headers,
                DetailField::Headers => DetailField::AuthType,
                DetailField::AuthType => DetailField::AuthUsername,
                DetailField::AuthUsername => DetailField::AuthPassword,
                DetailField::AuthPassword => DetailField::Url,
                _ => DetailField::Url,
            },
        }
    }

    /// Moves the focus one field backward.
    pub fn previous(&self, auth: AuthType) -> (r: DetailField)
        ensures
            r == self.previous_in(auth),
            in_cycle(auth, r),
    {
        proof {
            lemma_cycle_places(auth);
        }
        match auth {
            AuthType::NoAuth => match self {
                DetailField::Url => DetailField::AuthType,
                DetailField::Body => DetailField::Url,
                DetailField::Params => DetailField::Body,
                DetailField::Headers => DetailField::Params,
                DetailField::AuthType => DetailField::Headers,
                _ => DetailField::AuthType,
            },
            AuthType::Basic => match self {
                DetailField::Url => DetailField::AuthPassword,
                DetailField::Body => DetailField::Url,
                DetailField::Params => DetailField::Body,
                DetailField::Headers => DetailField::Params,
                DetailField::AuthType => DetailField::Headers,
                DetailField::AuthUsername => DetailField::AuthType,
                DetailField::AuthPassword => DetailField::AuthUsername,
                _ => DetailField::AuthPassword,
            },
        }
    }
}

/// Each field of a cycle stands at one place of it, and the fields outside
/// it at none.
pub proof fn lemma_cycle_places(auth: AuthType)
    ensures
        forall|i: int|
            0 <= i < field_cycle(auth).len() ==> in_cycle(auth, #[trigger] field_cycle(auth)[i])
                && cycle_index(auth, field_cycle(auth)[i]) == i,
        !in_cycle(auth, DetailField::NoField),
        auth == AuthType::NoAuth ==> !in_cycle(auth, DetailField::AuthUsername) && !in_cycle(
            auth,
            DetailField::AuthPassword,
        ),
        field_cycle(auth).len() == (if auth == AuthType::NoAuth { 5int } else { 7int }),
{
    let cycle = field_cycle(auth);
    assert forall|i: int| 0 <= i < cycle.len() implies in_cycle(auth, #[trigger] cycle[i])
        && cycle_index(auth, cycle[i]) == i by {
        let j = cycle.index_of(cycle[i]);
        assert(cycle.contains(cycle[i]));
        assert(0 <= j < cycle.len() && cycle[j] == cycle[i]);
    }
}

/// Moving the focus forward and then backward, or backward and then forward,
/// from a field of the cycle leads back to that field.
pub proof fn lemma_field_cycle_inverse(auth: AuthType, field: DetailField)
    requires
        in_cycle(auth, field),
    ensures
        field.next_in(auth).previous_in(auth) == field,
        field.previous_in(auth).next_in(auth) == field,
{
    lemma_cycle_places(auth);
    let cycle = field_cycle(auth);
    let i = cycle_index(auth, field);
    assert(0 <= i < cycle.len() && cycle[i] == field);
}

} // verus!
