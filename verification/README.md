# ur_controller

The decisions of a ROS 2 node that drives a UR robot, or a simulation of one, with proofs in Verus.

The node is an action server. It takes a goal and either forwards it to a robot simulator, or looks
up the frames that the goal names, renders a script from the template of its command and hands the
script to the driver of the robot.

- `src/` is the verified library.
  - `settings`: which server the parameters ask for.
  - `messages`, `action`: what is exchanged with clients, simulator, driver and transform service.
  - `text`, `interpretation`: the variables of a script, and the texts of their numbers.
  - `templates`, `script`: what is taken from the `tera` crate, and rendering a script with it.
  - `simulation`, `urscript`: the two servers, as state machines.
- `tests/` runs the library on concrete values.
- `app/` is the node itself: it waits for events and performs the effects that the servers ask for.
  Turning a quaternion into a rotation vector is floating-point arithmetic and stands there too.

The library believes, without proof, what `src/templates.rs` says of `tera`. Whether a template
renders, and to which text, is left open there, because a template can ask for the time, for a
random number or for an environment variable. That rendering returns at all is asked of the
templates: a step that has a script generated requires it.
