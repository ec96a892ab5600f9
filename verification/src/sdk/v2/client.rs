//! Messages from the client: registrations and submissions.
use vstd::prelude::*;
use crate::tact::TactFileProject;

verus! {

/// A client message: projects to register and/or things to play.
#[derive(Debug)]
pub struct ClientMessage {
    pub register: Option<Vec<ClientRegisterMessage>>,
    pub submit: Option<Vec<ClientSubmitMessage>>,
}

impl ClientMessage {
    pub fn new(register: Option<Vec<ClientRegisterMessage>>, submit: Option<Vec<ClientSubmitMessage>>) -> (r: Self)
        ensures
            r.register == register,
            r.submit == submit,
    {
        ClientMessage { register, submit }
    }

    /// A message that only registers projects.
    pub fn new_register(messages: Vec<ClientRegisterMessage>) -> (r: Self)
        ensures
            r.register == Some(messages),
            r.submit is None,
    {
        Self::new(Some(messages), None)
    }

    /// A message that only submits things to play.
    pub fn new_submit(messages: Vec<ClientSubmitMessage>) -> (r: Self)
        ensures
            r.register is None,
            r.submit == Some(messages),
    {
        Self::new(None, Some(messages))
    }
}

/// A project registered under a key (numeric keys are kept as their decimal text).
#[derive(Debug)]
pub struct ClientRegisterMessage {
    pub key: String,
    pub project: TactFileProject,
}

/// Something to play or stop.
#[derive(Debug)]
pub enum ClientSubmitMessage {
    TurnOffAll,
    TurnOff { key: String },
    Key { key: String },
    /// A frame to play right away, kept as raw JSON.
    Frame { key: String, frame: serde_json::Value },
}

} // verus!
