//! The state of the sample front end, which only exercises the echo
//! service. Drawing it and talking to the service are left to the caller.

use crate::status::FailStatus;
use crate::text::{decimal, decimal_spec};
use vstd::prelude::*;

verus! {

/// The sample front end's state.
#[derive(Debug)]
pub struct Frontend {
    pub cycle: u32,
    pub show_busy: bool,
    pub show_error: bool,
    pub message: Option<String>,
    pub error: Option<FailStatus>,
}

impl Frontend {
    /// The state at start-up.
    pub fn new() -> (f: Self)
        ensures
            f == (Frontend { cycle: 0, show_busy: false, show_error: false, message: None, error: None }),
    {
        Frontend { cycle: 0, show_busy: false, show_error: false, message: None, error: None }
    }

    /// "Request stuff": the counter goes up by two and the spinner shows;
    /// gives the payload of the echo request, the new counter in decimal.
    pub fn request_stuff(&mut self) -> (payload: String)
        requires
            old(self).cycle <= u32::MAX - 2,
        ensures
            *final(self) == (Frontend { cycle: (old(self).cycle + 2) as u32, show_busy: true, ..*old(self) }),
            payload@ == decimal_spec(final(self).cycle as nat),
    {
        self.cycle = self.cycle + 2;
        self.show_busy = true;
        decimal(self.cycle)
    }

    /// "Clear stuff": resets the counter and forgets the last answer.
    pub fn clear_stuff(&mut self)
        ensures
            *final(self) == (Frontend { cycle: 0, message: None, ..*old(self) }),
    {
        self.cycle = 0;
        self.message = None;
    }

    /// Takes in the result of an echo request: an answer is shown, a
    /// failure opens the error window; the spinner stops either way.
    pub fn receive(&mut self, result: Result<String, FailStatus>)
        ensures
            *final(self) == match result {
                Ok(text) => Frontend { message: Some(text), show_busy: false, ..*old(self) },
                Err(e) => Frontend { error: Some(e), show_error: true, show_busy: false, ..*old(self) },
            },
    {
        match result {
            Ok(response) => self.message = Some(response),
            Err(error) => {
                self.error = Some(error);
                self.show_error = true;
            },
        }
        self.show_busy = false;
    }

    /// "OK" in the error window: closes it and forgets the failure.
    pub fn dismiss_error(&mut self)
        ensures
            *final(self) == (Frontend { show_error: false, error: None, ..*old(self) }),
    {
        self.show_error = false;
        self.error = None;
    }
}

} // verus!
