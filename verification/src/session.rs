//! Conversation sessions: what the studio remembers of each chat between
//! one message and the next.

use crate::calendar::{Date, TimeOfDay};
use std::collections::HashMap;
use vstd::prelude::*;
use vstd::string::*;

verus! {

/// Who the person in the chat is.
#[derive(Clone, Copy, Debug, PartialEq, Eq, Structural)]
pub enum UserType {
    Unknown,
    Client,
    Photographer,
}

/// Where a conversation stands.
#[derive(Clone, Copy, Debug, PartialEq, Eq, Structural)]
pub enum UserStep {
    Registration,
    Start,
    MainMenu,
    SelectingService,
    SelectingPhotographer,
    SelectingTime,
    ConfirmingBooking,
    PersonalCabinet,
    ChangeName,
    PhotographerMainMenu,
    ViewSchedule,
    ViewBookings,
    ChangeDescription,
    ChangePortfolio,
    CustomHours,
}

/// Which photographer the session is about: for a photographer, the
/// photographer; for a client, the choice made while booking.
#[derive(Clone, Copy, Debug, PartialEq, Eq, Structural)]
pub enum PhotographerChoice {
    /// No choice was made yet.
    Unselected,
    /// The client leaves the choice to the studio.
    Any,
    /// This photographer.
    Specific(i32),
}

impl PhotographerChoice {
    /// The photographer, where one is named.
    pub open spec fn named(self) -> Option<i32> {
        match self {
            PhotographerChoice::Specific(id) => Some(id),
            _ => None,
        }
    }

    /// The photographer, where one is named.
    pub fn id(&self) -> (id: Option<i32>)
        ensures
            id == self.named(),
    {
        match self {
            PhotographerChoice::Specific(id) => Some(*id),
            _ => None,
        }
    }
}

/// The session of one chat.
#[derive(Debug)]
pub struct UserSession {
    pub step: UserStep,
    pub client_id: Option<i32>,
    pub photographer: PhotographerChoice,
    pub service_id: Option<i32>,
    pub selected_date: Option<Date>,
    pub selected_time_start: Option<TimeOfDay>,
    pub selected_time_end: Option<TimeOfDay>,
    pub agreement: bool,
    pub user_type: UserType,
    pub client_name: String,
    pub client_username: String,
}

/// A session as a plain value: the texts as sequences of characters.
pub struct SessionState {
    pub step: UserStep,
    pub client_id: Option<i32>,
    pub photographer: PhotographerChoice,
    pub service_id: Option<i32>,
    pub selected_date: Option<Date>,
    pub selected_time_start: Option<TimeOfDay>,
    pub selected_time_end: Option<TimeOfDay>,
    pub agreement: bool,
    pub user_type: UserType,
    pub client_name: Seq<char>,
    pub client_username: Seq<char>,
}

impl View for UserSession {
    type V = SessionState;

    open spec fn view(&self) -> SessionState {
        SessionState {
            step: self.step,
            client_id: self.client_id,
            photographer: self.photographer,
            service_id: self.service_id,
            selected_date: self.selected_date,
            selected_time_start: self.selected_time_start,
            selected_time_end: self.selected_time_end,
            agreement: self.agreement,
            user_type: self.user_type,
            client_name: self.client_name@,
            client_username: self.client_username@,
        }
    }
}

/// The session of a chat that was never heard of: at registration, nothing chosen.
pub open spec fn fresh_session() -> SessionState {
    SessionState {
        step: UserStep::Registration,
        client_id: None,
        photographer: PhotographerChoice::Unselected,
        service_id: None,
        selected_date: None,
        selected_time_start: None,
        selected_time_end: None,
        agreement: false,
        user_type: UserType::Unknown,
        client_name: Seq::empty(),
        client_username: Seq::empty(),
    }
}

impl UserSession {
    /// The session of a chat that was never heard of.
    pub fn new() -> (session: UserSession)
        ensures
            session@ == fresh_session(),
    {
        UserSession {
            step: UserStep::Registration,
            client_id: None,
            photographer: PhotographerChoice::Unselected,
            service_id: None,
            selected_date: None,
            selected_time_start: None,
            selected_time_end: None,
            agreement: false,
            user_type: UserType::Unknown,
            client_name: String::new(),
            client_username: String::new(),
        }
    }
}

/// The sessions of all chats, one per chat identity.
pub struct SessionStore {
    sessions: HashMap<i64, UserSession>,
}

impl SessionStore {
    /// The sessions by chat identity.
    pub closed spec fn sessions(&self) -> Map<i64, UserSession> {
        self.sessions@
    }

    /// The state of the session of a chat, the fresh session where the chat was never heard of.
    pub open spec fn state_of(&self, chat_id: i64) -> SessionState {
        if self.sessions().dom().contains(chat_id) {
            self.sessions()[chat_id]@
        } else {
            fresh_session()
        }
    }

    /// A store without sessions.
    pub fn new() -> (store: SessionStore)
        ensures
            store.sessions() == Map::<i64, UserSession>::empty(),
    {
        SessionStore { sessions: HashMap::new() }
    }

    /// Whether the chat has a session.
    pub fn contains(&self, chat_id: i64) -> (known: bool)
        ensures
            known == self.sessions().dom().contains(chat_id),
    {
        broadcast use vstd::std_specs::hash::group_hash_axioms;

        self.sessions.contains_key(&chat_id)
    }

    /// Takes the session of the chat out of the store, a fresh one where
    /// the chat was never heard of, to be put back after the event is handled.
    pub fn take(&mut self, chat_id: i64) -> (session: UserSession)
        ensures
            session@ == old(self).state_of(chat_id),
            final(self).sessions() == old(self).sessions().remove(chat_id),
    {
        broadcast use vstd::std_specs::hash::group_hash_axioms;

        match self.sessions.remove(&chat_id) {
            Some(session) => session,
            None => UserSession::new(),
        }
    }

    /// Puts the session of the chat into the store, in place of the one that was there.
    pub fn put(&mut self, chat_id: i64, session: UserSession)
        ensures
            final(self).sessions() == old(self).sessions().insert(chat_id, session),
            final(self).state_of(chat_id) == session@,
    {
        broadcast use vstd::std_specs::hash::group_hash_axioms;

        self.sessions.insert(chat_id, session);
    }
}

} // verus!
