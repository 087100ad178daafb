//! The schema-definition aggregate: commands, events, errors, and the pure
//! state machine that turns a command plus current state into events, and
//! folds events back into state.

use vstd::prelude::*;
use vstd::string::StringExecFns;

verus! {

/// Lifecycle status of a schema definition.
#[derive(Clone, Copy, Debug, PartialEq, Eq, Structural)]
pub enum Status {
    /// No definition has been created for this identity yet.
    Absent,
    Inactive,
    Valid,
    Active,
}

/// Aggregate state, reconstructed solely by folding events in append order.
#[derive(Debug, Clone, PartialEq)]
pub struct SchemaDef {
    pub id: String,
    pub schema: String,
    pub status: Status,
}

/// A request to transition a schema definition; produces events or an error,
/// never a state change by itself.
#[derive(Debug, Clone, PartialEq)]
pub enum SchemaDefCommand {
    CreateDef { id: String, schema: String },
    ValidateDef { id: String },
    ActivateDef { id: String },
    CreateAndValidateDef { id: String, schema: String },
    DeactivateDef { id: String },
}

/// An immutable fact about a schema definition, appended to the event log.
#[derive(Debug, Clone, PartialEq)]
pub enum SchemaDefEvent {
    DefCreated { id: String, schema: String },
    DefCreatedAndValidated { id: String, schema: String },
    DefValidated { id: String },
    DefActivated { id: String },
    DefDeactivated { id: String },
}

/// Typed, non-fatal command-handling failures. Every variant carries a
/// human-readable message and a caller-facing numeric code.
#[derive(Debug, PartialEq)]
pub enum SchemaDefError {
    ExistsError { error_message: String, error_code: u32 },
    ValidationError { error_message: String, error_code: u32 },
    ActivationError { error_message: String, error_code: u32 },
    DeactivationError { error_message: String, error_code: u32 },
    GeneralError { error_message: String, error_code: u32 },
}

/// Message reported when a creation command hits an existing aggregate.
pub open spec fn exists_msg(id: Seq<char>) -> Seq<char> {
    "Aggregate with id "@ + id + " already exists"@
}

/// Message reported when a command's target id does not match the aggregate.
pub open spec fn mismatch_msg(command_id: Seq<char>, aggregate_id: Seq<char>) -> Seq<char> {
    "The id:"@ + command_id + " in the command does not match with id: "@ + aggregate_id
        + " in the aggregate"@
}

/// Whether `command` is accepted in state `state`: a creation command needs a
/// fresh identity, every other command needs a matching identity and the
/// status its transition starts from.
pub open spec fn accepts(state: SchemaDef, command: SchemaDefCommand) -> bool {
    match command {
        SchemaDefCommand::CreateDef { id, .. } => state.id@ != id@,
        SchemaDefCommand::CreateAndValidateDef { id, .. } => state.id@ != id@,
        SchemaDefCommand::ValidateDef { id } => state.id@ == id@ && state.status is Inactive,
        SchemaDefCommand::ActivateDef { id } => state.id@ == id@ && state.status is Valid,
        SchemaDefCommand::DeactivateDef { id } => state.id@ == id@ && state.status is Active,
    }
}

/// The events a successful command records.
pub open spec fn events_of(command: SchemaDefCommand) -> Seq<SchemaDefEvent> {
    match command {
        SchemaDefCommand::CreateDef { id, schema } => seq![
            SchemaDefEvent::DefCreated { id, schema },
        ],
        SchemaDefCommand::CreateAndValidateDef { id, schema } => seq![
            SchemaDefEvent::DefCreatedAndValidated { id, schema },
        ],
        SchemaDefCommand::ValidateDef { id } => seq![SchemaDefEvent::DefValidated { id }],
        SchemaDefCommand::ActivateDef { id } => seq![SchemaDefEvent::DefActivated { id }],
        SchemaDefCommand::DeactivateDef { id } => seq![SchemaDefEvent::DefDeactivated { id }],
    }
}

/// The state reached by folding one event into `state`. Total: every event
/// variant has a defined effect.
pub open spec fn apply_spec(state: SchemaDef, event: SchemaDefEvent) -> SchemaDef {
    match event {
        SchemaDefEvent::DefCreated { id, schema } => SchemaDef {
            id,
            schema,
            status: Status::Inactive,
        },
        SchemaDefEvent::DefCreatedAndValidated { id, schema } => SchemaDef {
            id,
            schema,
            status: Status::Valid,
        },
        SchemaDefEvent::DefValidated { .. } => SchemaDef { status: Status::Valid, ..state },
        SchemaDefEvent::DefActivated { .. } => SchemaDef { status: Status::Active, ..state },
        SchemaDefEvent::DefDeactivated { .. } => SchemaDef { status: Status::Inactive, ..state },
    }
}

/// The state reached by folding `events` into `state` in append order.
pub open spec fn fold_spec(state: SchemaDef, events: Seq<SchemaDefEvent>) -> SchemaDef
    decreases events.len(),
{
    if events.len() == 0 {
        state
    } else {
        apply_spec(fold_spec(state, events.drop_last()), events.last())
    }
}

impl Default for SchemaDef {
    /// The empty state an aggregate is folded up from.
    fn default() -> (r: Self)
        ensures
            r.id@ == Seq::<char>::empty(),
            r.schema@ == Seq::<char>::empty(),
            r.status is Absent,
    {
        SchemaDef { id: String::new(), schema: String::new(), status: Status::Absent }
    }
}

impl SchemaDef {
    /// A definition as first created: the given id and schema text, not yet
    /// validated. Syntactic validation of the schema itself is an external
    /// concern, not part of this state machine.
    pub fn new(id: String, schema: String) -> (r: Self)
        ensures
            r.id == id,
            r.schema == schema,
            r.status is Inactive,
    {
        SchemaDef { id, schema, status: Status::Inactive }
    }

    /// Handles one command against the current state. Pure: the only outcome
    /// is either the events to append or a typed error with a message and a
    /// caller-facing numeric code.
    ///
    /// Succeeds exactly when `accepts` holds, and then returns exactly
    /// `events_of(command)`.
    pub fn handle(&self, command: SchemaDefCommand) -> (r: Result<
        Vec<SchemaDefEvent>,
        SchemaDefError,
    >)
        ensures
            r is Ok <==> accepts(*self, command),
            r matches Ok(events) ==> events@ == events_of(command),
            r matches Err(e) ==> match command {
                SchemaDefCommand::CreateDef { id, .. } => e matches SchemaDefError::ExistsError {
                    error_message,
                    error_code,
                } && error_message@ == exists_msg(id@) && error_code == 400,
                SchemaDefCommand::CreateAndValidateDef { id, .. } => e matches SchemaDefError::ExistsError {
                    error_message,
                    error_code,
                } && error_message@ == exists_msg(id@) && error_code == 400,
                SchemaDefCommand::ValidateDef { id } => e matches SchemaDefError::ValidationError {
                    error_message,
                    error_code,
                } && error_code == 400 && error_message@ == if self.id@ != id@ {
                    mismatch_msg(id@, self.id@)
                } else {
                    "only an inactive definition can be validated"@
                },
                SchemaDefCommand::ActivateDef { id } => e matches SchemaDefError::ActivationError {
                    error_message,
                    error_code,
                } && error_code == 400 && error_message@ == if self.id@ != id@ {
                    mismatch_msg(id@, self.id@)
                } else {
                    "only a validated definition can be activated"@
                },
                SchemaDefCommand::DeactivateDef { id } => e matches SchemaDefError::DeactivationError {
                    error_message,
                    error_code,
                } && error_code == 400 && error_message@ == if self.id@ != id@ {
                    mismatch_msg(id@, self.id@)
                } else {
                    "only an active definition can be deactivated"@
                },
            },
    {
        match command {
            SchemaDefCommand::CreateDef { id, schema } => {
                if self.id == id {
                    return Err(
                        SchemaDefError::ExistsError {
                            error_message: exists_message(id.as_str()),
                            error_code: 400,
                        },
                    );
                }
                let def = SchemaDef::new(id, schema);
                Ok(vec![SchemaDefEvent::DefCreated { id: def.id, schema: def.schema }])
            },
            SchemaDefCommand::CreateAndValidateDef { id, schema } => {
                if self.id == id {
                    return Err(
                        SchemaDefError::ExistsError {
                            error_message: exists_message(id.as_str()),
                            error_code: 400,
                        },
                    );
                }
                let def = SchemaDef::new(id, schema);
                Ok(
                    vec![
                        SchemaDefEvent::DefCreatedAndValidated { id: def.id, schema: def.schema },
                    ],
                )
            },
            SchemaDefCommand::ValidateDef { id } => {
                if !(self.id == id) {
                    return Err(
                        SchemaDefError::ValidationError {
                            error_message: mismatch_message(id.as_str(), self.id.as_str()),
                            error_code: 400,
                        },
                    );
                }
                match self.status {
                    Status::Inactive => Ok(vec![SchemaDefEvent::DefValidated { id }]),
                    _ => Err(
                        SchemaDefError::ValidationError {
                            error_message: String::from_str(
                                "only an inactive definition can be validated",
                            ),
                            error_code: 400,
                        },
                    ),
                }
            },
            SchemaDefCommand::ActivateDef { id } => {
                if !(self.id == id) {
                    return Err(
                        SchemaDefError::ActivationError {
                            error_message: mismatch_message(id.as_str(), self.id.as_str()),
                            error_code: 400,
                        },
                    );
                }
                match self.status {
                    Status::Valid => Ok(vec![SchemaDefEvent::DefActivated { id }]),
                    _ => Err(
                        SchemaDefError::ActivationError {
                            error_message: String::from_str(
                                "only a validated definition can be activated",
                            ),
                            error_code: 400,
                        },
                    ),
                }
            },
            SchemaDefCommand::DeactivateDef { id } => {
                if !(self.id == id) {
                    return Err(
                        SchemaDefError::DeactivationError {
                            error_message: mismatch_message(id.as_str(), self.id.as_str()),
                            error_code: 400,
                        },
                    );
                }
                match self.status {
                    Status::Active => Ok(vec![SchemaDefEvent::DefDeactivated { id }]),
                    _ => Err(
                        SchemaDefError::DeactivationError {
                            error_message: String::from_str(
                                "only an active definition can be deactivated",
                            ),
                            error_code: 400,
                        },
                    ),
                }
            },
        }
    }

    /// Folds one event into the state, in place. Total over all event
    /// variants.
    pub fn apply(&mut self, event: SchemaDefEvent)
        ensures
            *final(self) == apply_spec(*old(self), event),
    {
        match event {
            SchemaDefEvent::DefCreated { id, schema } => {
                self.schema = schema;
                self.id = id;
                self.status = Status::Inactive;
            },
            SchemaDefEvent::DefValidated { .. } => {
                self.status = Status::Valid;
            },
            SchemaDefEvent::DefActivated { .. } => {
                self.status = Status::Active;
            },
            SchemaDefEvent::DefDeactivated { .. } => {
                self.status = Status::Inactive;
            },
            SchemaDefEvent::DefCreatedAndValidated { id, schema } => {
                self.schema = schema;
                self.id = id;
                self.status = Status::Valid;
            },
        }
    }

    /// Rebuilds state by folding `events` in append order into `self`. The
    /// result is a function of the starting state and the event sequence
    /// alone: replaying the same events always yields the same state.
    pub fn replay(self, events: Vec<SchemaDefEvent>) -> (r: Self)
        ensures
            r == fold_spec(self, events@),
    {
        let mut state = self;
        let mut i: usize = 0;
        while i < events.len()
            invariant
                0 <= i <= events@.len(),
                state == fold_spec(self, events@.subrange(0, i as int)),
            decreases events@.len() - i,
        {
            let event = events[i].duplicate();
            state.apply(event);
            proof {
                let pre = events@.subrange(0, i as int);
                let post = events@.subrange(0, i as int + 1);
                assert(post.drop_last() =~= pre);
                assert(post.last() == events@[i as int]);
            }
            i = i + 1;
        }
        proof {
            assert(events@.subrange(0, events@.len() as int) =~= events@);
        }
        state
    }

    /// The aggregate type tag, unique to the system.
    pub fn aggregate_type() -> (r: String)
        ensures
            r@ == "SchemaDef"@,
    {
        String::from_str("SchemaDef")
    }
}

impl SchemaDefEvent {
    /// An exact copy of the event; events are immutable values.
    pub fn duplicate(&self) -> (r: Self)
        ensures
            r == *self,
    {
        match self {
            SchemaDefEvent::DefCreated { id, schema } => SchemaDefEvent::DefCreated {
                id: id.clone(),
                schema: schema.clone(),
            },
            SchemaDefEvent::DefCreatedAndValidated { id, schema } => SchemaDefEvent::DefCreatedAndValidated {
                id: id.clone(),
                schema: schema.clone(),
            },
            SchemaDefEvent::DefValidated { id } => SchemaDefEvent::DefValidated { id: id.clone() },
            SchemaDefEvent::DefActivated { id } => SchemaDefEvent::DefActivated { id: id.clone() },
            SchemaDefEvent::DefDeactivated { id } => SchemaDefEvent::DefDeactivated {
                id: id.clone(),
            },
        }
    }

    /// The discriminant of the event, as recorded in the event log.
    pub fn event_type(&self) -> (r: String)
        ensures
            r@ == match self {
                SchemaDefEvent::DefCreated { .. } => "DefCreated"@,
                SchemaDefEvent::DefValidated { .. } => "DefValidated"@,
                SchemaDefEvent::DefActivated { .. } => "DefActivated"@,
                SchemaDefEvent::DefDeactivated { .. } => "DefDeactivated"@,
                SchemaDefEvent::DefCreatedAndValidated { .. } => "DefCreatedAndValidated"@,
            },
    {
        match self {
            SchemaDefEvent::DefCreated { .. } => String::from_str("DefCreated"),
            SchemaDefEvent::DefValidated { .. } => String::from_str("DefValidated"),
            SchemaDefEvent::DefActivated { .. } => String::from_str("DefActivated"),
            SchemaDefEvent::DefDeactivated { .. } => String::from_str("DefDeactivated"),
            SchemaDefEvent::DefCreatedAndValidated { .. } => String::from_str(
                "DefCreatedAndValidated",
            ),
        }
    }

    /// The version tag of the event schema.
    pub fn event_version(&self) -> (r: String)
        ensures
            r@ == "1.0"@,
    {
        String::from_str("1.0")
    }
}

impl SchemaDefError {
    /// The message and caller-facing numeric code the transport layer must
    /// relay verbatim.
    pub fn message_and_code(&self) -> (r: (&String, u32))
        ensures
            match self {
                SchemaDefError::ExistsError { error_message, error_code } => r.0
                    == error_message && r.1 == error_code,
                SchemaDefError::ValidationError { error_message, error_code } => r.0
                    == error_message && r.1 == error_code,
                SchemaDefError::ActivationError { error_message, error_code } => r.0
                    == error_message && r.1 == error_code,
                SchemaDefError::DeactivationError { error_message, error_code } => r.0
                    == error_message && r.1 == error_code,
                SchemaDefError::GeneralError { error_message, error_code } => r.0
                    == error_message && r.1 == error_code,
            },
    {
        match self {
            SchemaDefError::ExistsError { error_message, error_code } => (
                error_message,
                *error_code,
            ),
            SchemaDefError::ValidationError { error_message, error_code } => (
                error_message,
                *error_code,
            ),
            SchemaDefError::ActivationError { error_message, error_code } => (
                error_message,
                *error_code,
            ),
            SchemaDefError::DeactivationError { error_message, error_code } => (
                error_message,
                *error_code,
            ),
            SchemaDefError::GeneralError { error_message, error_code } => (
                error_message,
                *error_code,
            ),
        }
    }
}

fn exists_message(id: &str) -> (r: String)
    ensures
        r@ == exists_msg(id@),
{
    let mut m = String::from_str("Aggregate with id ");
    m.append(id);
    m.append(" already exists");
    m
}

fn mismatch_message(command_id: &str, aggregate_id: &str) -> (r: String)
    ensures
        r@ == mismatch_msg(command_id@, aggregate_id@),
{
    let mut m = String::from_str("The id:");
    m.append(command_id);
    m.append(" in the command does not match with id: ");
    m.append(aggregate_id);
    m.append(" in the aggregate");
    m
}

/// Folding the same ordered event sequence from the same starting state
/// always yields the same final state: state reconstruction is deterministic,
/// with no hidden inputs.
pub proof fn lemma_replay_deterministic(
    first_state: SchemaDef,
    second_state: SchemaDef,
    first_events: Seq<SchemaDefEvent>,
    second_events: Seq<SchemaDefEvent>,
)
    requires
        first_state == second_state,
        first_events == second_events,
    ensures
        fold_spec(first_state, first_events) == fold_spec(second_state, second_events),
{
}

/// A compound create-and-validate records a single event, yet folds to
/// exactly the state reached by a create event followed by a validate event:
/// from the caller's perspective the two paths are indistinguishable in final
/// state, whatever the event counts.
pub proof fn lemma_compound_create_validate(
    state: SchemaDef,
    id: String,
    schema: String,
    validated_id: String,
)
    ensures
        fold_spec(state, seq![SchemaDefEvent::DefCreatedAndValidated { id, schema }]) == fold_spec(
            fold_spec(state, seq![SchemaDefEvent::DefCreated { id, schema }]),
            seq![SchemaDefEvent::DefValidated { id: validated_id }],
        ),
{
    let compound = seq![SchemaDefEvent::DefCreatedAndValidated { id, schema }];
    let created = seq![SchemaDefEvent::DefCreated { id, schema }];
    let validated = seq![SchemaDefEvent::DefValidated { id: validated_id }];
    assert(compound.drop_last() =~= Seq::<SchemaDefEvent>::empty());
    assert(created.drop_last() =~= Seq::<SchemaDefEvent>::empty());
    assert(validated.drop_last() =~= Seq::<SchemaDefEvent>::empty());
    assert(fold_spec(state, compound) == apply_spec(
        state,
        SchemaDefEvent::DefCreatedAndValidated { id, schema },
    ));
    let after_create = fold_spec(state, created);
    assert(after_create == apply_spec(state, SchemaDefEvent::DefCreated { id, schema }));
    assert(fold_spec(after_create, Seq::<SchemaDefEvent>::empty()) == after_create);
    assert(fold_spec(after_create, validated) == apply_spec(
        after_create,
        SchemaDefEvent::DefValidated { id: validated_id },
    ));
}

} // verus!
