//! The chat commands through which users manage their alerts: what each
//! command takes, and what is replied.

pub mod commands;
