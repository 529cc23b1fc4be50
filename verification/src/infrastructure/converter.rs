//! Conversion contracts between store row models and entities.
//!
//! A row model is the plain shape a storage binding reads and writes:
//! every column is optional, as the wire and the store allow. Converting a
//! row into an entity re-validates every field through the value objects;
//! converting an entity into a row merely lays its fields out.

use crate::error::AppError;
use vstd::prelude::*;

verus! {

/// Conversion between one row model and one entity.
pub trait ModelAndEntity {
    /// The entity side of the conversion.
    type Entity;

    /// The row model side of the conversion.
    type Model;

    /// Whether the row's fields are all present and valid.
    spec fn model_ok(model: &Self::Model) -> bool;

    /// What it means for `entity` to be the reading of `model`.
    spec fn entity_matches(model: &Self::Model, entity: &Self::Entity) -> bool;

    /// Whether the entity is ready to be laid out as a row.
    spec fn entity_ok(entity: &Self::Entity) -> bool;

    /// What it means for `model` to be the layout of `entity`.
    spec fn model_matches(entity: &Self::Entity, model: &Self::Model) -> bool;

    /// Read a row into an entity, re-validating every field.
    fn model_to_entity(model: &Self::Model) -> (r: Result<Self::Entity, AppError>)
        ensures
            match r {
                Ok(entity) => Self::model_ok(model) && Self::entity_matches(model, &entity),
                Err(e) => !Self::model_ok(model) && e is ValidationFailure,
            },
    ;

    /// Lay an entity out as a row.
    fn entity_to_model(entity: &Self::Entity) -> (r: Self::Model)
        requires
            Self::entity_ok(entity),
        ensures
            Self::model_matches(entity, &r),
    ;
}

/// Conversion of whole result sets of row models into entities.
pub trait VecModelToVecEntity {
    /// The entity side of the conversion.
    type Entity;

    /// The row model side of the conversion.
    type Model;

    /// The joined row model of a related table, where a query joins one.
    type JoinModel;

    /// Whether one row converts.
    spec fn row_ok(model: &Self::Model) -> bool;

    /// What it means for `entity` to be the reading of `model`.
    spec fn row_matches(model: &Self::Model, entity: &Self::Entity) -> bool;

    /// Whether one joined row converts.
    spec fn join_row_ok(row: &(Self::Model, Option<Self::JoinModel>)) -> bool;

    /// What it means for `entity` to be the reading of the joined row.
    spec fn join_row_matches(
        row: &(Self::Model, Option<Self::JoinModel>),
        entity: &Self::Entity,
    ) -> bool;

    /// Read one kind of row, keeping the order; the first invalid row
    /// rejects the whole set.
    fn entities(models: &Vec<Self::Model>) -> (r: Result<Vec<Self::Entity>, AppError>)
        ensures
            match r {
                Ok(found) => {
                    &&& found@.len() == models@.len()
                    &&& forall|i: int|
                        0 <= i < models@.len() ==> Self::row_ok(&models@[i]) && Self::row_matches(
                            &models@[i],
                            &(#[trigger] found@[i]),
                        )
                },
                Err(e) => e is ValidationFailure && exists|i: int|
                    0 <= i < models@.len() && !Self::row_ok(&(#[trigger] models@[i])),
            },
    ;

    /// Read a joined result set, keeping the order; the first invalid row
    /// rejects the whole set.
    fn join_model_to_entities(models: &Vec<(Self::Model, Option<Self::JoinModel>)>) -> (r: Result<
        Vec<Self::Entity>,
        AppError,
    >)
        ensures
            match r {
                Ok(found) => {
                    &&& found@.len() == models@.len()
                    &&& forall|i: int|
                        0 <= i < models@.len() ==> Self::join_row_ok(&models@[i])
                            && Self::join_row_matches(&models@[i], &(#[trigger] found@[i]))
                },
                Err(e) => e is ValidationFailure && exists|i: int|
                    0 <= i < models@.len() && !Self::join_row_ok(&(#[trigger] models@[i])),
            },
    ;
}

} // verus!
