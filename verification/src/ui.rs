//! The interactive surface's state and its event reducer. The widget layer
//! itself is an external collaborator: it displays these fields, feeds one
//! `Message` per user action into `update`, and performs the command the
//! reducer hands back (scheduling a generation run and delivering its outcome
//! as a later `Message`).

use vstd::prelude::*;
use vstd::string::*;
use crate::numeral::{dec_rep, numeral_value, parse_usize, push_dec};
use crate::scene::{kind_name, ComponentType, PlacedComponent, clone_components};

verus! {

/// One user or system event the surface delivers to the reducer.
#[derive(Debug)]
pub enum Message {
    XInputChanged(String),
    YInputChanged(String),
    GeneratePressed,
    GenerationComplete(Result<(), String>),
    ComponentTypeSelected(ComponentType),
    ComponentXInputChanged(String),
    ComponentYInputChanged(String),
    AddComponentPressed,
}

/// The effect the reducer asks the surface to carry out.
#[derive(Debug)]
pub enum UiCommand {
    /// Nothing to do beyond redisplaying the state.
    Nothing,
    /// Schedule one generation run from these raw inputs; deliver its outcome
    /// back as `Message::GenerationComplete`.
    StartGeneration { x: String, y: String, components: Vec<PlacedComponent> },
}

/// The surface's state: the raw input fields, a status message, a busy flag,
/// and the components added so far.
#[derive(Debug)]
pub struct CircuitikzApp {
    pub x_input: String,
    pub y_input: String,
    pub message: String,
    pub is_generating: bool,
    pub component_type: Option<ComponentType>,
    pub component_x_input: String,
    pub component_y_input: String,
    pub components: Vec<PlacedComponent>,
}

/// The status message once a component is added.
pub open spec fn added_message(k: ComponentType, x: nat, y: nat) -> Seq<char> {
    "Added component "@ + kind_name(k) + " at ("@ + dec_rep(x) + ", "@ + dec_rep(y) + ")"@
}

/// The status message while a run is in flight.
pub open spec fn generating_message() -> Seq<char> {
    "Generating PDF..."@
}

/// The status message once a run succeeds.
pub open spec fn success_message() -> Seq<char> {
    "PDF generated and opened successfully."@
}

/// The status message once a run fails, carrying the run's own message.
pub open spec fn completion_error_message(e: Seq<char>) -> Seq<char> {
    "Error: "@ + e
}

/// The status message when the component coordinates do not parse.
pub open spec fn invalid_coords_message() -> Seq<char> {
    "Invalid component coordinates"@
}

/// The status message when no component kind is selected.
pub open spec fn no_type_message() -> Seq<char> {
    "No component type selected"@
}

/// Everything except the status message is the same in `a` and `b`.
pub open spec fn only_status_changed(a: CircuitikzApp, b: CircuitikzApp) -> bool {
    &&& b.x_input == a.x_input
    &&& b.y_input == a.y_input
    &&& b.is_generating == a.is_generating
    &&& b.component_type == a.component_type
    &&& b.component_x_input == a.component_x_input
    &&& b.component_y_input == a.component_y_input
    &&& b.components == a.components
}

/// `b` is `a` with component `c` appended and the status message updated.
pub open spec fn component_added(a: CircuitikzApp, b: CircuitikzApp, c: PlacedComponent) -> bool {
    &&& b.x_input == a.x_input
    &&& b.y_input == a.y_input
    &&& b.is_generating == a.is_generating
    &&& b.component_type == a.component_type
    &&& b.component_x_input == a.component_x_input
    &&& b.component_y_input == a.component_y_input
    &&& b.components@ == a.components@.push(c)
}

/// The input fields and selection are the same in `a` and `b`.
pub open spec fn inputs_unchanged(a: CircuitikzApp, b: CircuitikzApp) -> bool {
    &&& b.x_input == a.x_input
    &&& b.y_input == a.y_input
    &&& b.component_type == a.component_type
    &&& b.component_x_input == a.component_x_input
    &&& b.component_y_input == a.component_y_input
}

impl CircuitikzApp {
    /// The state the surface starts in: a ten-by-ten grid, one selectable
    /// component kind, example coordinates, nothing added yet.
    pub fn new() -> (app: CircuitikzApp)
        ensures
            app.x_input@ == "10"@,
            app.y_input@ == "10"@,
            app.message@ == Seq::<char>::empty(),
            app.is_generating == false,
            app.component_type == Some(ComponentType::Nmos),
            app.component_x_input@ == "5"@,
            app.component_y_input@ == "5"@,
            app.components@ == Seq::<PlacedComponent>::empty(),
    {
        proof {
            reveal_strlit("");
        }
        CircuitikzApp {
            x_input: String::from_str("10"),
            y_input: String::from_str("10"),
            message: String::from_str(""),
            is_generating: false,
            component_type: Some(ComponentType::Nmos),
            component_x_input: String::from_str("5"),
            component_y_input: String::from_str("5"),
            components: Vec::new(),
        }
    }

    /// The window title.
    pub fn title(&self) -> (t: String)
        ensures
            t@ == "CircuitikZ Grid Generator"@,
    {
        String::from_str("CircuitikZ Grid Generator")
    }

    /// Advances the surface's state by one message and names the effect the
    /// surface must perform.
    pub fn update(&mut self, message: Message) -> (cmd: UiCommand)
        ensures
            match message {
                Message::XInputChanged(v) => {
                    &&& cmd matches UiCommand::Nothing
                    &&& *final(self) == (CircuitikzApp { x_input: v, ..*old(self) })
                },
                Message::YInputChanged(v) => {
                    &&& cmd matches UiCommand::Nothing
                    &&& *final(self) == (CircuitikzApp { y_input: v, ..*old(self) })
                },
                Message::ComponentTypeSelected(k) => {
                    &&& cmd matches UiCommand::Nothing
                    &&& *final(self) == (CircuitikzApp { component_type: Some(k), ..*old(self) })
                },
                Message::ComponentXInputChanged(v) => {
                    &&& cmd matches UiCommand::Nothing
                    &&& *final(self) == (CircuitikzApp { component_x_input: v, ..*old(self) })
                },
                Message::ComponentYInputChanged(v) => {
                    &&& cmd matches UiCommand::Nothing
                    &&& *final(self) == (CircuitikzApp { component_y_input: v, ..*old(self) })
                },
                Message::AddComponentPressed => {
                    &&& cmd matches UiCommand::Nothing
                    &&& match old(self).component_type {
                        None => {
                            &&& only_status_changed(*old(self), *final(self))
                            &&& final(self).message@ == no_type_message()
                        },
                        Some(k) => match (
                            numeral_value(old(self).component_x_input@),
                            numeral_value(old(self).component_y_input@),
                        ) {
                            (Some(x), Some(y)) => if x <= usize::MAX && y <= usize::MAX {
                                &&& component_added(
                                    *old(self),
                                    *final(self),
                                    PlacedComponent { kind: k, x: x as usize, y: y as usize },
                                )
                                &&& final(self).message@ == added_message(k, x, y)
                            } else {
                                &&& only_status_changed(*old(self), *final(self))
                                &&& final(self).message@ == invalid_coords_message()
                            },
                            _ => {
                                &&& only_status_changed(*old(self), *final(self))
                                &&& final(self).message@ == invalid_coords_message()
                            },
                        },
                    }
                },
                Message::GeneratePressed => {
                    &&& inputs_unchanged(*old(self), *final(self))
                    &&& final(self).components == old(self).components
                    &&& final(self).is_generating == true
                    &&& final(self).message@ == generating_message()
                    &&& cmd matches UiCommand::StartGeneration { x, y, components }
                    &&& x@ == old(self).x_input@
                    &&& y@ == old(self).y_input@
                    &&& components@ == old(self).components@
                },
                Message::GenerationComplete(r) => {
                    &&& cmd matches UiCommand::Nothing
                    &&& inputs_unchanged(*old(self), *final(self))
                    &&& final(self).is_generating == false
                    &&& match r {
                        Ok(()) => {
                            &&& final(self).message@ == success_message()
                            &&& final(self).components@ == Seq::<PlacedComponent>::empty()
                        },
                        Err(e) => {
                            &&& final(self).message@ == completion_error_message(e@)
                            &&& final(self).components == old(self).components
                        },
                    }
                },
            },
    {
        match message {
            Message::XInputChanged(value) => {
                self.x_input = value;
                UiCommand::Nothing
            },
            Message::YInputChanged(value) => {
                self.y_input = value;
                UiCommand::Nothing
            },
            Message::ComponentTypeSelected(component) => {
                self.component_type = Some(component);
                UiCommand::Nothing
            },
            Message::ComponentXInputChanged(value) => {
                self.component_x_input = value;
                UiCommand::Nothing
            },
            Message::ComponentYInputChanged(value) => {
                self.component_y_input = value;
                UiCommand::Nothing
            },
            Message::AddComponentPressed => {
                match self.component_type {
                    Some(kind) => {
                        let xr = parse_usize(self.component_x_input.as_str());
                        let yr = parse_usize(self.component_y_input.as_str());
                        match (xr, yr) {
                            (Some(x), Some(y)) => {
                                self.components.push(PlacedComponent { kind, x, y });
                                self.message = added_message_string(kind, x, y);
                            },
                            _ => {
                                self.message = String::from_str(
                                    "Invalid component coordinates",
                                );
                            },
                        }
                    },
                    None => {
                        self.message = String::from_str("No component type selected");
                    },
                }
                UiCommand::Nothing
            },
            Message::GeneratePressed => {
                self.is_generating = true;
                self.message = String::from_str("Generating PDF...");
                UiCommand::StartGeneration {
                    x: self.x_input.clone(),
                    y: self.y_input.clone(),
                    components: clone_components(&self.components),
                }
            },
            Message::GenerationComplete(result) => {
                self.is_generating = false;
                match result {
                    Ok(()) => {
                        self.message = String::from_str(
                            "PDF generated and opened successfully.",
                        );
                        self.components.clear();
                    },
                    Err(e) => {
                        let mut m = String::from_str("Error: ");
                        m.append(e.as_str());
                        self.message = m;
                    },
                }
                UiCommand::Nothing
            },
        }
    }
}

/// Builds the added-component status message.
fn added_message_string(k: ComponentType, x: usize, y: usize) -> (r: String)
    ensures
        r@ == added_message(k, x as nat, y as nat),
{
    let mut r = String::from_str("Added component ");
    r.append(k.name().as_str());
    r.append(" at (");
    push_dec(&mut r, x);
    r.append(", ");
    push_dec(&mut r, y);
    r.append(")");
    proof {
        assert(r@ =~= added_message(k, x as nat, y as nat));
    }
    r
}

} // verus!
