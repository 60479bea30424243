pub mod assembler;
pub mod b64;
pub mod chan;
pub mod chat;
pub mod completions;
pub mod conversation;
pub mod cmd;
pub mod copy;
pub mod credits;
pub mod event;
pub mod image;
pub mod printer;
pub mod reply;
pub mod skill;
pub mod term;
pub mod text;
pub mod tool;
pub mod xdg;
