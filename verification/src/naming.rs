//! The rule that names a field after the node it stands for.

use crate::text::concat_text;
use crate::text::is_type_word;
use crate::text::snake_case_of;
use crate::text::spells_type;
use crate::text::to_snake_case;
use vstd::prelude::*;

verus! {

/// The identifier that replaces the reserved word `type`.
pub open spec fn kind_word() -> Seq<char> {
    seq!['k', 'i', 'n', 'd']
}

/// The identifier of a field, given the snake case form of the local name:
/// `kind` where the local name spells `type` in any case, the snake case
/// form otherwise, and an `s` behind it where the field holds a list.
pub open spec fn identifier_from(local: Seq<char>, snake: Seq<char>, multiple: bool) -> Seq<char> {
    let base = if spells_type(local) {
        kind_word()
    } else {
        snake
    };
    if multiple {
        base.push('s')
    } else {
        base
    }
}

/// The identifier of the field that stands for a node called `local`.
pub open spec fn field_identifier(local: Seq<char>, multiple: bool) -> Seq<char> {
    identifier_from(local, snake_case_of(local), multiple)
}

/// Names a field from the local name of its node and the snake case form of
/// that name.
pub fn name_field(local: &str, snake: String, multiple: bool) -> (r: String)
    ensures
        r@ == identifier_from(local@, snake@, multiple),
{
    let base = if is_type_word(local) {
        proof {
            reveal_strlit("kind");
        }
        "kind".to_owned()
    } else {
        snake
    };
    if multiple {
        proof {
            reveal_strlit("s");
        }
        concat_text(base.as_str(), "s")
    } else {
        base
    }
}

/// Names the field that stands for a node called `local`.
pub fn field_name(local: &str, multiple: bool) -> (r: String)
    ensures
        r@ == field_identifier(local@, multiple),
{
    let snake = to_snake_case(local);
    name_field(local, snake, multiple)
}

/// A node whose name spells `type`, in any case, gives the field `kind`
/// where it occurs at most once, and `kinds` where it is a list.
pub proof fn lemma_type_becomes_kind(local: Seq<char>, multiple: bool)
    requires
        spells_type(local),
    ensures
        !multiple ==> field_identifier(local, multiple) == kind_word(),
        multiple ==> field_identifier(local, multiple) == kind_word().push('s'),
{
}

} // verus!
