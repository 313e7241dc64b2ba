//! The refusals that a request can meet, each with its status and the
//! message that the client reads.

use vstd::prelude::*;

verus! {

/// Why a request was refused.
#[derive(Debug, Clone, Copy, PartialEq, Eq, Structural)]
pub enum ApiError {
    /// No bearer credential came with the request.
    NoToken,
    /// The server has no secret to check credentials against.
    SecretMissing,
    /// The credential is not valid.
    InvalidToken,
    /// An account with that email exists already.
    EmailTaken,
    /// The email or the password is wrong.
    InvalidCredentials,
    /// The text is not the text of an account's identity.
    InvalidUserId,
    /// No account has that identity.
    UserNotFound,
    /// The text is not the text of a room's identity.
    InvalidRoomId,
    /// No room has that identity or invite code.
    RoomNotFound,
    /// The account is a participant of the room already.
    AlreadyInRoom,
    /// The store did not add the participant to the room.
    JoinFailed,
    /// The account is no participant of the room.
    NotAMember,
    /// The upload held no file.
    NoFile,
    /// Something failed that the client cannot mend.
    Internal,
}

impl ApiError {
    /// The HTTP status of the refusal.
    pub open spec fn status_code(self) -> u16 {
        match self {
            ApiError::NoToken | ApiError::SecretMissing | ApiError::InvalidToken
            | ApiError::InvalidCredentials => 401,
            ApiError::EmailTaken | ApiError::AlreadyInRoom | ApiError::NoFile => 400,
            ApiError::NotAMember => 403,
            ApiError::UserNotFound | ApiError::RoomNotFound => 404,
            ApiError::InvalidUserId | ApiError::InvalidRoomId | ApiError::JoinFailed
            | ApiError::Internal => 500,
        }
    }

    /// The message of the refusal.
    pub open spec fn message_text(self) -> Seq<char> {
        match self {
            ApiError::NoToken => "Ingen token fundet"@,
            ApiError::SecretMissing => "JWT_SECRET er ikke konfigureret"@,
            ApiError::InvalidToken => "Ugyldig token"@,
            ApiError::EmailTaken => "Bruger med denne email findes allerede"@,
            ApiError::InvalidCredentials => "Ugyldig email eller adgangskode"@,
            ApiError::InvalidUserId => "Ugyldigt bruger ID"@,
            ApiError::UserNotFound => "Bruger ikke fundet"@,
            ApiError::InvalidRoomId => "Ugyldigt rum ID"@,
            ApiError::RoomNotFound => "Spilrum ikke fundet"@,
            ApiError::AlreadyInRoom => "Du er allerede i dette spilrum"@,
            ApiError::JoinFailed => "Kunne ikke tilføje dig til spilrummet"@,
            ApiError::NotAMember => "Du har ikke adgang til dette spilrum"@,
            ApiError::NoFile => "Ingen fil modtaget"@,
            ApiError::Internal => "Intern fejl"@,
        }
    }

    /// The HTTP status of the refusal.
    pub fn status(&self) -> (code: u16)
        ensures
            code == self.status_code(),
    {
        match self {
            ApiError::NoToken | ApiError::SecretMissing | ApiError::InvalidToken
            | ApiError::InvalidCredentials => 401,
            ApiError::EmailTaken | ApiError::AlreadyInRoom | ApiError::NoFile => 400,
            ApiError::NotAMember => 403,
            ApiError::UserNotFound | ApiError::RoomNotFound => 404,
            ApiError::InvalidUserId | ApiError::InvalidRoomId | ApiError::JoinFailed
            | ApiError::Internal => 500,
        }
    }

    /// The message of the refusal.
    pub fn message(&self) -> (text: &'static str)
        ensures
            text@ == self.message_text(),
    {
        match self {
            ApiError::NoToken => "Ingen token fundet",
            ApiError::SecretMissing => "JWT_SECRET er ikke konfigureret",
            ApiError::InvalidToken => "Ugyldig token",
            ApiError::EmailTaken => "Bruger med denne email findes allerede",
            ApiError::InvalidCredentials => "Ugyldig email eller adgangskode",
            ApiError::InvalidUserId => "Ugyldigt bruger ID",
            ApiError::UserNotFound => "Bruger ikke fundet",
            ApiError::InvalidRoomId => "Ugyldigt rum ID",
            ApiError::RoomNotFound => "Spilrum ikke fundet",
            ApiError::AlreadyInRoom => "Du er allerede i dette spilrum",
            ApiError::JoinFailed => "Kunne ikke tilføje dig til spilrummet",
            ApiError::NotAMember => "Du har ikke adgang til dette spilrum",
            ApiError::NoFile => "Ingen fil modtaget",
            ApiError::Internal => "Intern fejl",
        }
    }
}

} // verus!
