use vstd::prelude::*;
use crate::error::AppError;
use crate::text::{chars_of, trim_chars, trimmed};

verus! {

/// The room that purchases are made in unless the settings name another.
pub const DEFAULT_ROOM_ID: u32 = 10;

/// The persisted settings: the member's username, the room, and the phone number
/// and licence plate last used for parking.
#[derive(Debug, Clone)]
pub struct Config {
    pub username: Option<String>,
    pub room_id: u32,
    pub phone_number: Option<String>,
    pub license_plate: Option<String>,
}

pub fn default_room_id() -> (r: u32)
    ensures
        r == DEFAULT_ROOM_ID,
{
    DEFAULT_ROOM_ID
}

impl Default for Config {
    fn default() -> (r: Config)
        ensures
            r.username.is_none(),
            r.room_id == DEFAULT_ROOM_ID,
            r.phone_number.is_none(),
            r.license_plate.is_none(),
    {
        Config {
            username: None,
            room_id: default_room_id(),
            phone_number: None,
            license_plate: None,
        }
    }
}

/// Settings are valid unless they hold a username that is empty or all white space.
pub open spec fn config_valid(c: Config) -> bool {
    match c.username {
        Some(u) => trimmed(u@).len() > 0,
        None => true,
    }
}

impl Config {
    pub fn get_api_url() -> (r: String)
        ensures
            r@ == "https://stregsystem.fklub.dk/api"@,
    {
        String::from_str("https://stregsystem.fklub.dk/api")
    }

    pub fn validate(&self) -> (r: Result<(), AppError>)
        ensures
            r.is_ok() == config_valid(*self),
            match r {
                Err(AppError::Config(m)) => m@ == "Username cannot be empty or whitespace only"@,
                Err(_) => false,
                Ok(_) => true,
            },
    {
        match &self.username {
            Some(username) => {
                let t = trim_chars(&chars_of(username.as_str()));
                if t.len() == 0 {
                    return Err(
                        AppError::Config(
                            String::from_str("Username cannot be empty or whitespace only"),
                        ),
                    );
                }
                Ok(())
            },
            None => Ok(()),
        }
    }
}

} // verus!
