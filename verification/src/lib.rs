//! The decisions of a ROS 2 node that drives a UR robot.
//!
//! The node is an action server. A client hands it a [`messages::UrControlGoal`], and the node
//! carries the goal out in one of two ways: it forwards the goal to a robot simulator
//! ([`simulation`]), or it looks up the frames that the goal names, renders a script from a
//! template and hands the script to the driver of the robot ([`urscript`]).
//!
//! Both servers are state machines: a step takes the state and one event and returns the next
//! state with the effects that the node performs, in order. What the node does outside of them
//! is to wait for events and to perform effects.
//!
//! The numbers of a message are type parameters, because nothing here computes with them: they
//! are moved, shown as text and converted to JSON values. `D` stands for the double-precision
//! numbers of a message, `S` for the single-precision ones and `P` for those of a payload. `E`
//! stands for the errors with which the simulator and the driver fail to be asked or to answer.

pub mod action;
pub mod interpretation;
pub mod messages;
pub mod script;
pub mod settings;
pub mod simulation;
pub mod templates;
pub mod text;
pub mod urscript;
