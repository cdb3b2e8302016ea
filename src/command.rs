use vstd::prelude::*;

verus! {

/// An action that the user can trigger from the interface.
pub trait Command {
    fn get_name(&self) -> String;

    fn get_icon(&self) -> String;

    fn get_enable(&self) -> String;

    fn exec(&mut self);
}

/// Names a registered command by its number.
#[derive(Debug, Clone, Copy, PartialEq, Eq, Hash, Structural)]
pub struct CommandId(pub u32);

/// How commands are laid out in the interface.
pub enum CommandUiList {
    Icon(CommandId),
    Block(CommandId),
    Multi(Vec<CommandId>),
    List([Option<CommandId>; 3]),
}

} // verus!
