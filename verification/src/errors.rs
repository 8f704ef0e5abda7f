//! The error model shared by every service: the kinds of failure, where
//! they were raised, how they read, and how foreign failures are folded into
//! them.
use vstd::prelude::*;
use crate::text::{decimal_string, decimal_text};

verus! {

/// Every kind of failure that the backend reports to its clients.
///
/// Variants with a `max` carry the limit that was exceeded; the permission
/// variants name the permission that was missing.
#[derive(Debug, Clone)]
pub enum ErrorType {
    LabelMe,
    AlreadyOnboarded,
    UsernameTaken,
    InvalidUsername,
    DiscriminatorChangeRatelimited,
    UnknownUser,
    AlreadyFriends,
    AlreadySentRequest,
    Blocked,
    BlockedByOther,
    NotFriends,
    TooManyPendingFriendRequests { max: usize },
    UnknownChannel,
    UnknownAttachment,
    UnknownMessage,
    CannotEditMessage,
    CannotJoinCall,
    TooManyAttachments { max: usize },
    TooManyEmbeds { max: usize },
    TooManyReplies { max: usize },
    TooManyChannels { max: usize },
    EmptyMessage,
    PayloadTooLarge,
    CannotRemoveYourself,
    GroupTooLarge { max: usize },
    AlreadyInGroup,
    NotInGroup,
    AlreadyPinned,
    NotPinned,
    UnknownServer,
    InvalidRole,
    Banned,
    TooManyServers { max: usize },
    TooManyEmoji { max: usize },
    TooManyRoles { max: usize },
    AlreadyInServer,
    CannotTimeoutYourself,
    ReachedMaximumBots,
    IsBot,
    IsNotBot,
    BotIsPrivate,
    CannotReportYourself,
    MissingPermission { permission: String },
    MissingUserPermission { permission: String },
    NotElevated,
    NotPrivileged,
    CannotGiveMissingPermissions,
    NotOwner,
    IsElevated,
    DatabaseError { operation: String, collection: String },
    InternalError,
    InvalidOperation,
    InvalidCredentials,
    InvalidProperty,
    InvalidSession,
    InvalidFlagValue,
    NotAuthenticated,
    DuplicateNonce,
    NotFound,
    NoEffect,
    FailedValidation { error: String },
    LiveKitUnavailable,
    NotAVoiceChannel,
    AlreadyConnected,
    NotConnected,
    UnknownNode,
    ProxyError,
    FileTooSmall,
    FileTooLarge { max: usize },
    FileTypeNotAllowed,
    ImageProcessingFailed,
    NoEmbedData,
    VosoUnavailable,
    FeatureDisabled { feature: String },
}

/// A place in the source code: file, line and column.
#[derive(Debug, Clone)]
pub struct CodeLocation {
    pub file: String,
    pub line: u32,
    pub column: u32,
}

/// An error: what went wrong and where it was raised.
#[derive(Debug, Clone)]
pub struct Error {
    pub error_type: ErrorType,
    /// The place that raised the error, written `file:line:column`.
    pub location: String,
}

/// The text of a location, `file:line:column`.
pub open spec fn location_text(at: CodeLocation) -> Seq<char> {
    at.file@ + ":"@ + decimal_text(at.line as nat) + ":"@ + decimal_text(at.column as nat)
}

/// The name of the variant of a kind of error.
pub open spec fn variant_name_text(t: ErrorType) -> Seq<char> {
    match t {
        ErrorType::LabelMe => "LabelMe"@,
        ErrorType::AlreadyOnboarded => "AlreadyOnboarded"@,
        ErrorType::UsernameTaken => "UsernameTaken"@,
        ErrorType::InvalidUsername => "InvalidUsername"@,
        ErrorType::DiscriminatorChangeRatelimited => "DiscriminatorChangeRatelimited"@,
        ErrorType::UnknownUser => "UnknownUser"@,
        ErrorType::AlreadyFriends => "AlreadyFriends"@,
        ErrorType::AlreadySentRequest => "AlreadySentRequest"@,
        ErrorType::Blocked => "Blocked"@,
        ErrorType::BlockedByOther => "BlockedByOther"@,
        ErrorType::NotFriends => "NotFriends"@,
        ErrorType::TooManyPendingFriendRequests { .. } => "TooManyPendingFriendRequests"@,
        ErrorType::UnknownChannel => "UnknownChannel"@,
        ErrorType::UnknownAttachment => "UnknownAttachment"@,
        ErrorType::UnknownMessage => "UnknownMessage"@,
        ErrorType::CannotEditMessage => "CannotEditMessage"@,
        ErrorType::CannotJoinCall => "CannotJoinCall"@,
        ErrorType::TooManyAttachments { .. } => "TooManyAttachments"@,
        ErrorType::TooManyEmbeds { .. } => "TooManyEmbeds"@,
        ErrorType::TooManyReplies { .. } => "TooManyReplies"@,
        ErrorType::TooManyChannels { .. } => "TooManyChannels"@,
        ErrorType::EmptyMessage => "EmptyMessage"@,
        ErrorType::PayloadTooLarge => "PayloadTooLarge"@,
        ErrorType::CannotRemoveYourself => "CannotRemoveYourself"@,
        ErrorType::GroupTooLarge { .. } => "GroupTooLarge"@,
        ErrorType::AlreadyInGroup => "AlreadyInGroup"@,
        ErrorType::NotInGroup => "NotInGroup"@,
        ErrorType::AlreadyPinned => "AlreadyPinned"@,
        ErrorType::NotPinned => "NotPinned"@,
        ErrorType::UnknownServer => "UnknownServer"@,
        ErrorType::InvalidRole => "InvalidRole"@,
        ErrorType::Banned => "Banned"@,
        ErrorType::TooManyServers { .. } => "TooManyServers"@,
        ErrorType::TooManyEmoji { .. } => "TooManyEmoji"@,
        ErrorType::TooManyRoles { .. } => "TooManyRoles"@,
        ErrorType::AlreadyInServer => "AlreadyInServer"@,
        ErrorType::CannotTimeoutYourself => "CannotTimeoutYourself"@,
        ErrorType::ReachedMaximumBots => "ReachedMaximumBots"@,
        ErrorType::IsBot => "IsBot"@,
        ErrorType::IsNotBot => "IsNotBot"@,
        ErrorType::BotIsPrivate => "BotIsPrivate"@,
        ErrorType::CannotReportYourself => "CannotReportYourself"@,
        ErrorType::MissingPermission { .. } => "MissingPermission"@,
        ErrorType::MissingUserPermission { .. } => "MissingUserPermission"@,
        ErrorType::NotElevated => "NotElevated"@,
        ErrorType::NotPrivileged => "NotPrivileged"@,
        ErrorType::CannotGiveMissingPermissions => "CannotGiveMissingPermissions"@,
        ErrorType::NotOwner => "NotOwner"@,
        ErrorType::IsElevated => "IsElevated"@,
        ErrorType::DatabaseError { .. } => "DatabaseError"@,
        ErrorType::InternalError => "InternalError"@,
        ErrorType::InvalidOperation => "InvalidOperation"@,
        ErrorType::InvalidCredentials => "InvalidCredentials"@,
        ErrorType::InvalidProperty => "InvalidProperty"@,
        ErrorType::InvalidSession => "InvalidSession"@,
        ErrorType::InvalidFlagValue => "InvalidFlagValue"@,
        ErrorType::NotAuthenticated => "NotAuthenticated"@,
        ErrorType::DuplicateNonce => "DuplicateNonce"@,
        ErrorType::NotFound => "NotFound"@,
        ErrorType::NoEffect => "NoEffect"@,
        ErrorType::FailedValidation { .. } => "FailedValidation"@,
        ErrorType::LiveKitUnavailable => "LiveKitUnavailable"@,
        ErrorType::NotAVoiceChannel => "NotAVoiceChannel"@,
        ErrorType::AlreadyConnected => "AlreadyConnected"@,
        ErrorType::NotConnected => "NotConnected"@,
        ErrorType::UnknownNode => "UnknownNode"@,
        ErrorType::ProxyError => "ProxyError"@,
        ErrorType::FileTooSmall => "FileTooSmall"@,
        ErrorType::FileTooLarge { .. } => "FileTooLarge"@,
        ErrorType::FileTypeNotAllowed => "FileTypeNotAllowed"@,
        ErrorType::ImageProcessingFailed => "ImageProcessingFailed"@,
        ErrorType::NoEmbedData => "NoEmbedData"@,
        ErrorType::VosoUnavailable => "VosoUnavailable"@,
        ErrorType::FeatureDisabled { .. } => "FeatureDisabled"@,
    }
}

/// The string fields of a kind of error, in the order in which they are declared.
pub open spec fn string_fields(t: ErrorType) -> Seq<Seq<char>> {
    match t {
        ErrorType::MissingPermission { permission } => seq![permission@],
        ErrorType::MissingUserPermission { permission } => seq![permission@],
        ErrorType::FailedValidation { error } => seq![error@],
        ErrorType::FeatureDisabled { feature } => seq![feature@],
        ErrorType::DatabaseError { operation, collection } => seq![operation@, collection@],
        _ => Seq::empty(),
    }
}

/// The part of the debug text that lists the fields of a kind of error,
/// given the debug-quoted forms of its string fields.
pub open spec fn field_text(t: ErrorType, quoted: Seq<Seq<char>>) -> Seq<char> {
    match t {
        ErrorType::TooManyPendingFriendRequests { max } | ErrorType::TooManyAttachments { max } | ErrorType::TooManyEmbeds { max } | ErrorType::TooManyReplies { max } | ErrorType::TooManyChannels { max } | ErrorType::GroupTooLarge { max } | ErrorType::TooManyServers { max } | ErrorType::TooManyEmoji { max } | ErrorType::TooManyRoles { max } | ErrorType::FileTooLarge { max } => " { max: "@ + decimal_text(max as nat) + " }"@,
        ErrorType::MissingPermission { .. } | ErrorType::MissingUserPermission { .. } =>
            " { permission: "@ + quoted[0] + " }"@,
        ErrorType::FailedValidation { .. } => " { error: "@ + quoted[0] + " }"@,
        ErrorType::FeatureDisabled { .. } => " { feature: "@ + quoted[0] + " }"@,
        ErrorType::DatabaseError { .. } =>
            " { operation: "@ + quoted[0] + ", collection: "@ + quoted[1] + " }"@,
        _ => Seq::empty(),
    }
}

/// The debug text of a kind of error, given the debug-quoted forms of its
/// string fields: `Name`, or `Name { field: value, .. }`.
pub open spec fn debug_text_with(t: ErrorType, quoted: Seq<Seq<char>>) -> Seq<char> {
    variant_name_text(t) + field_text(t, quoted)
}

/// The debug-quoted forms of the string fields of a kind of error.
pub open spec fn quoted_fields_text(t: ErrorType) -> Seq<Seq<char>> {
    string_fields(t).map_values(|s: Seq<char>| debug_quoted(s))
}

/// The debug text of a kind of error.
pub open spec fn debug_text(t: ErrorType) -> Seq<char> {
    debug_text_with(t, quoted_fields_text(t))
}

/// The text by which an error reads, given the debug-quoted forms of the
/// string fields of its kind: `<kind> occurred in <location>`.
pub open spec fn display_text_with(e: Error, quoted: Seq<Seq<char>>) -> Seq<char> {
    debug_text_with(e.error_type, quoted) + " occurred in "@ + e.location@
}

/// The text by which an error reads: `<kind> occurred in <location>`.
pub open spec fn display_text(e: Error) -> Seq<char> {
    display_text_with(e, quoted_fields_text(e.error_type))
}

/// Whether `e` is the internal error raised at `at`.
pub open spec fn is_internal_error_at(e: Error, at: CodeLocation) -> bool {
    &&& e.error_type is InternalError
    &&& e.location@ == location_text(at)
}

/// Whether `e` is the database error of `operation` on `collection`, raised at `at`.
pub open spec fn is_database_error_at(
    e: Error,
    operation: Seq<char>,
    collection: Seq<char>,
    at: CodeLocation,
) -> bool {
    &&& e.error_type matches ErrorType::DatabaseError { operation: op, collection: col }
        && op@ == operation && col@ == collection
    &&& e.location@ == location_text(at)
}

/// The debug text of a kind without fields is the variant's name alone.
pub proof fn lemma_debug_text_of_plain_kinds(t: ErrorType)
    ensures
        t is LabelMe ==> debug_text(t) == "LabelMe"@,
        t is AlreadyOnboarded ==> debug_text(t) == "AlreadyOnboarded"@,
        t is UsernameTaken ==> debug_text(t) == "UsernameTaken"@,
        t is InvalidUsername ==> debug_text(t) == "InvalidUsername"@,
        t is DiscriminatorChangeRatelimited ==> debug_text(t) == "DiscriminatorChangeRatelimited"@,
        t is UnknownUser ==> debug_text(t) == "UnknownUser"@,
        t is AlreadyFriends ==> debug_text(t) == "AlreadyFriends"@,
        t is AlreadySentRequest ==> debug_text(t) == "AlreadySentRequest"@,
        t is Blocked ==> debug_text(t) == "Blocked"@,
        t is BlockedByOther ==> debug_text(t) == "BlockedByOther"@,
        t is NotFriends ==> debug_text(t) == "NotFriends"@,
        t is UnknownChannel ==> debug_text(t) == "UnknownChannel"@,
        t is UnknownAttachment ==> debug_text(t) == "UnknownAttachment"@,
        t is UnknownMessage ==> debug_text(t) == "UnknownMessage"@,
        t is CannotEditMessage ==> debug_text(t) == "CannotEditMessage"@,
        t is CannotJoinCall ==> debug_text(t) == "CannotJoinCall"@,
        t is EmptyMessage ==> debug_text(t) == "EmptyMessage"@,
        t is PayloadTooLarge ==> debug_text(t) == "PayloadTooLarge"@,
        t is CannotRemoveYourself ==> debug_text(t) == "CannotRemoveYourself"@,
        t is AlreadyInGroup ==> debug_text(t) == "AlreadyInGroup"@,
        t is NotInGroup ==> debug_text(t) == "NotInGroup"@,
        t is AlreadyPinned ==> debug_text(t) == "AlreadyPinned"@,
        t is NotPinned ==> debug_text(t) == "NotPinned"@,
        t is UnknownServer ==> debug_text(t) == "UnknownServer"@,
        t is InvalidRole ==> debug_text(t) == "InvalidRole"@,
        t is Banned ==> debug_text(t) == "Banned"@,
        t is AlreadyInServer ==> debug_text(t) == "AlreadyInServer"@,
        t is CannotTimeoutYourself ==> debug_text(t) == "CannotTimeoutYourself"@,
        t is ReachedMaximumBots ==> debug_text(t) == "ReachedMaximumBots"@,
        t is IsBot ==> debug_text(t) == "IsBot"@,
        t is IsNotBot ==> debug_text(t) == "IsNotBot"@,
        t is BotIsPrivate ==> debug_text(t) == "BotIsPrivate"@,
        t is CannotReportYourself ==> debug_text(t) == "CannotReportYourself"@,
        t is NotElevated ==> debug_text(t) == "NotElevated"@,
        t is NotPrivileged ==> debug_text(t) == "NotPrivileged"@,
        t is CannotGiveMissingPermissions ==> debug_text(t) == "CannotGiveMissingPermissions"@,
        t is NotOwner ==> debug_text(t) == "NotOwner"@,
        t is IsElevated ==> debug_text(t) == "IsElevated"@,
        t is InternalError ==> debug_text(t) == "InternalError"@,
        t is InvalidOperation ==> debug_text(t) == "InvalidOperation"@,
        t is InvalidCredentials ==> debug_text(t) == "InvalidCredentials"@,
        t is InvalidProperty ==> debug_text(t) == "InvalidProperty"@,
        t is InvalidSession ==> debug_text(t) == "InvalidSession"@,
        t is InvalidFlagValue ==> debug_text(t) == "InvalidFlagValue"@,
        t is NotAuthenticated ==> debug_text(t) == "NotAuthenticated"@,
        t is DuplicateNonce ==> debug_text(t) == "DuplicateNonce"@,
        t is NotFound ==> debug_text(t) == "NotFound"@,
        t is NoEffect ==> debug_text(t) == "NoEffect"@,
        t is LiveKitUnavailable ==> debug_text(t) == "LiveKitUnavailable"@,
        t is NotAVoiceChannel ==> debug_text(t) == "NotAVoiceChannel"@,
        t is AlreadyConnected ==> debug_text(t) == "AlreadyConnected"@,
        t is NotConnected ==> debug_text(t) == "NotConnected"@,
        t is UnknownNode ==> debug_text(t) == "UnknownNode"@,
        t is ProxyError ==> debug_text(t) == "ProxyError"@,
        t is FileTooSmall ==> debug_text(t) == "FileTooSmall"@,
        t is FileTypeNotAllowed ==> debug_text(t) == "FileTypeNotAllowed"@,
        t is ImageProcessingFailed ==> debug_text(t) == "ImageProcessingFailed"@,
        t is NoEmbedData ==> debug_text(t) == "NoEmbedData"@,
        t is VosoUnavailable ==> debug_text(t) == "VosoUnavailable"@,
{
}

/// The debug text of a kind with fields is `Name { field: value, .. }`, as
/// `#[derive(Debug)]` writes it: a limit in decimal, a string debug-quoted.
pub proof fn lemma_debug_text_of_kinds_with_fields(t: ErrorType)
    ensures
        t matches ErrorType::TooManyPendingFriendRequests { max } ==> debug_text(t) == "TooManyPendingFriendRequests"@ + " { max: "@ + decimal_text(max as nat) + " }"@,
        t matches ErrorType::TooManyAttachments { max } ==> debug_text(t) == "TooManyAttachments"@ + " { max: "@ + decimal_text(max as nat) + " }"@,
        t matches ErrorType::TooManyEmbeds { max } ==> debug_text(t) == "TooManyEmbeds"@ + " { max: "@ + decimal_text(max as nat) + " }"@,
        t matches ErrorType::TooManyReplies { max } ==> debug_text(t) == "TooManyReplies"@ + " { max: "@ + decimal_text(max as nat) + " }"@,
        t matches ErrorType::TooManyChannels { max } ==> debug_text(t) == "TooManyChannels"@ + " { max: "@ + decimal_text(max as nat) + " }"@,
        t matches ErrorType::GroupTooLarge { max } ==> debug_text(t) == "GroupTooLarge"@ + " { max: "@ + decimal_text(max as nat) + " }"@,
        t matches ErrorType::TooManyServers { max } ==> debug_text(t) == "TooManyServers"@ + " { max: "@ + decimal_text(max as nat) + " }"@,
        t matches ErrorType::TooManyEmoji { max } ==> debug_text(t) == "TooManyEmoji"@ + " { max: "@ + decimal_text(max as nat) + " }"@,
        t matches ErrorType::TooManyRoles { max } ==> debug_text(t) == "TooManyRoles"@ + " { max: "@ + decimal_text(max as nat) + " }"@,
        t matches ErrorType::MissingPermission { permission } ==> debug_text(t) == "MissingPermission"@ + " { permission: "@ + debug_quoted(permission@) + " }"@,
        t matches ErrorType::MissingUserPermission { permission } ==> debug_text(t) == "MissingUserPermission"@ + " { permission: "@ + debug_quoted(permission@) + " }"@,
        t matches ErrorType::DatabaseError { operation, collection } ==> debug_text(t) == "DatabaseError"@ + " { operation: "@ + debug_quoted(operation@) + ", collection: "@ + debug_quoted(collection@) + " }"@,
        t matches ErrorType::FailedValidation { error } ==> debug_text(t) == "FailedValidation"@ + " { error: "@ + debug_quoted(error@) + " }"@,
        t matches ErrorType::FileTooLarge { max } ==> debug_text(t) == "FileTooLarge"@ + " { max: "@ + decimal_text(max as nat) + " }"@,
        t matches ErrorType::FeatureDisabled { feature } ==> debug_text(t) == "FeatureDisabled"@ + " { feature: "@ + debug_quoted(feature@) + " }"@,
{
}

/// An error reads as the debug text of its kind, `" occurred in "`, and its location.
pub proof fn lemma_display_text_written_out(e: Error)
    ensures
        display_text(e) == debug_text(e.error_type) + " occurred in "@ + e.location@,
{
}

/// A location is written as its file, a colon, its line in decimal, a colon,
/// and its column in decimal.
pub proof fn lemma_location_text_written_out(at: CodeLocation)
    ensures
        location_text(at) == at.file@ + ":"@ + decimal_text(at.line as nat) + ":"@ + decimal_text(
            at.column as nat,
        ),
{
}

/// Name for what `format!("{:?}", s)` gives for a string slice `s`: the text
/// between double quotes, with the characters that std's `Debug` for `str`
/// escapes written as escapes.
pub uninterp spec fn debug_quoted(text: Seq<char>) -> Seq<char>;

/// Calls std's `Debug` formatting of a string slice. Claims only that the
/// result is the named function `debug_quoted` of the slice's characters.
#[verifier::external_body]
fn quote_for_debug(s: &str) -> (r: String)
    ensures
        r@ == debug_quoted(s@),
{
    format!("{:?}", s)
}

impl CodeLocation {
    /// A location in `file` at `line` and `column`.
    pub fn new(file: &str, line: u32, column: u32) -> (r: CodeLocation)
        ensures
            r.file@ == file@,
            r.line == line,
            r.column == column,
    {
        CodeLocation { file: String::from_str(file), line, column }
    }

    /// Writes the location as `file:line:column`.
    pub fn render(&self) -> (r: String)
        ensures
            r@ == location_text(*self),
            r@ == self.file@ + ":"@ + decimal_text(self.line as nat) + ":"@ + decimal_text(
                self.column as nat,
            ),
    {
        let mut r = String::from_str(self.file.as_str());
        r.append(":");
        let line = decimal_string(self.line as u64);
        r.append(line.as_str());
        r.append(":");
        let column = decimal_string(self.column as u64);
        r.append(column.as_str());
        r
    }
}

impl ErrorType {
    /// The name of this variant.
    pub fn variant_name(&self) -> (r: &'static str)
        ensures
            r@ == variant_name_text(*self),
    {
        match self {
            ErrorType::LabelMe => "LabelMe",
            ErrorType::AlreadyOnboarded => "AlreadyOnboarded",
            ErrorType::UsernameTaken => "UsernameTaken",
            ErrorType::InvalidUsername => "InvalidUsername",
            ErrorType::DiscriminatorChangeRatelimited => "DiscriminatorChangeRatelimited",
            ErrorType::UnknownUser => "UnknownUser",
            ErrorType::AlreadyFriends => "AlreadyFriends",
            ErrorType::AlreadySentRequest => "AlreadySentRequest",
            ErrorType::Blocked => "Blocked",
            ErrorType::BlockedByOther => "BlockedByOther",
            ErrorType::NotFriends => "NotFriends",
            ErrorType::TooManyPendingFriendRequests { .. } => "TooManyPendingFriendRequests",
            ErrorType::UnknownChannel => "UnknownChannel",
            ErrorType::UnknownAttachment => "UnknownAttachment",
            ErrorType::UnknownMessage => "UnknownMessage",
            ErrorType::CannotEditMessage => "CannotEditMessage",
            ErrorType::CannotJoinCall => "CannotJoinCall",
            ErrorType::TooManyAttachments { .. } => "TooManyAttachments",
            ErrorType::TooManyEmbeds { .. } => "TooManyEmbeds",
            ErrorType::TooManyReplies { .. } => "TooManyReplies",
            ErrorType::TooManyChannels { .. } => "TooManyChannels",
            ErrorType::EmptyMessage => "EmptyMessage",
            ErrorType::PayloadTooLarge => "PayloadTooLarge",
            ErrorType::CannotRemoveYourself => "CannotRemoveYourself",
            ErrorType::GroupTooLarge { .. } => "GroupTooLarge",
            ErrorType::AlreadyInGroup => "AlreadyInGroup",
            ErrorType::NotInGroup => "NotInGroup",
            ErrorType::AlreadyPinned => "AlreadyPinned",
            ErrorType::NotPinned => "NotPinned",
            ErrorType::UnknownServer => "UnknownServer",
            ErrorType::InvalidRole => "InvalidRole",
            ErrorType::Banned => "Banned",
            ErrorType::TooManyServers { .. } => "TooManyServers",
            ErrorType::TooManyEmoji { .. } => "TooManyEmoji",
            ErrorType::TooManyRoles { .. } => "TooManyRoles",
            ErrorType::AlreadyInServer => "AlreadyInServer",
            ErrorType::CannotTimeoutYourself => "CannotTimeoutYourself",
            ErrorType::ReachedMaximumBots => "ReachedMaximumBots",
            ErrorType::IsBot => "IsBot",
            ErrorType::IsNotBot => "IsNotBot",
            ErrorType::BotIsPrivate => "BotIsPrivate",
            ErrorType::CannotReportYourself => "CannotReportYourself",
            ErrorType::MissingPermission { .. } => "MissingPermission",
            ErrorType::MissingUserPermission { .. } => "MissingUserPermission",
            ErrorType::NotElevated => "NotElevated",
            ErrorType::NotPrivileged => "NotPrivileged",
            ErrorType::CannotGiveMissingPermissions => "CannotGiveMissingPermissions",
            ErrorType::NotOwner => "NotOwner",
            ErrorType::IsElevated => "IsElevated",
            ErrorType::DatabaseError { .. } => "DatabaseError",
            ErrorType::InternalError => "InternalError",
            ErrorType::InvalidOperation => "InvalidOperation",
            ErrorType::InvalidCredentials => "InvalidCredentials",
            ErrorType::InvalidProperty => "InvalidProperty",
            ErrorType::InvalidSession => "InvalidSession",
            ErrorType::InvalidFlagValue => "InvalidFlagValue",
            ErrorType::NotAuthenticated => "NotAuthenticated",
            ErrorType::DuplicateNonce => "DuplicateNonce",
            ErrorType::NotFound => "NotFound",
            ErrorType::NoEffect => "NoEffect",
            ErrorType::FailedValidation { .. } => "FailedValidation",
            ErrorType::LiveKitUnavailable => "LiveKitUnavailable",
            ErrorType::NotAVoiceChannel => "NotAVoiceChannel",
            ErrorType::AlreadyConnected => "AlreadyConnected",
            ErrorType::NotConnected => "NotConnected",
            ErrorType::UnknownNode => "UnknownNode",
            ErrorType::ProxyError => "ProxyError",
            ErrorType::FileTooSmall => "FileTooSmall",
            ErrorType::FileTooLarge { .. } => "FileTooLarge",
            ErrorType::FileTypeNotAllowed => "FileTypeNotAllowed",
            ErrorType::ImageProcessingFailed => "ImageProcessingFailed",
            ErrorType::NoEmbedData => "NoEmbedData",
            ErrorType::VosoUnavailable => "VosoUnavailable",
            ErrorType::FeatureDisabled { .. } => "FeatureDisabled",
        }
    }

    /// The debug-quoted forms of this kind's string fields, in declaration order.
    pub fn quoted_fields(&self) -> (q: Vec<String>)
        ensures
            q.len() == string_fields(*self).len(),
            q@.map_values(|s: String| s@) == quoted_fields_text(*self),
    {
        let mut q: Vec<String> = Vec::new();
        match self {
            ErrorType::MissingPermission { permission } => {
                q.push(quote_for_debug(permission.as_str()));
            },
            ErrorType::MissingUserPermission { permission } => {
                q.push(quote_for_debug(permission.as_str()));
            },
            ErrorType::FailedValidation { error } => {
                q.push(quote_for_debug(error.as_str()));
            },
            ErrorType::FeatureDisabled { feature } => {
                q.push(quote_for_debug(feature.as_str()));
            },
            ErrorType::DatabaseError { operation, collection } => {
                q.push(quote_for_debug(operation.as_str()));
                q.push(quote_for_debug(collection.as_str()));
            },
            _ => {},
        }
        assert(q@.map_values(|s: String| s@) =~= quoted_fields_text(*self));
        q
    }

    /// The debug text of this kind, given the debug-quoted forms of its string
    /// fields in declaration order.
    pub fn debug_text_with(&self, quoted: &Vec<String>) -> (r: String)
        requires
            quoted.len() == string_fields(*self).len(),
        ensures
            r@ == debug_text_with(*self, quoted@.map_values(|s: String| s@)),
    {
        let ghost q = quoted@.map_values(|s: String| s@);
        let mut r = String::from_str(self.variant_name());
        match self {
            ErrorType::TooManyPendingFriendRequests { max } | ErrorType::TooManyAttachments { max } | ErrorType::TooManyEmbeds { max } | ErrorType::TooManyReplies { max } | ErrorType::TooManyChannels { max } | ErrorType::GroupTooLarge { max } | ErrorType::TooManyServers { max } | ErrorType::TooManyEmoji { max } | ErrorType::TooManyRoles { max } | ErrorType::FileTooLarge { max } => {
                r.append(" { max: ");
                let digits = decimal_string(*max as u64);
                r.append(digits.as_str());
                r.append(" }");
            },
            ErrorType::MissingPermission { .. } | ErrorType::MissingUserPermission { .. } => {
                r.append(" { permission: ");
                r.append(quoted[0].as_str());
                r.append(" }");
            },
            ErrorType::FailedValidation { .. } => {
                r.append(" { error: ");
                r.append(quoted[0].as_str());
                r.append(" }");
            },
            ErrorType::FeatureDisabled { .. } => {
                r.append(" { feature: ");
                r.append(quoted[0].as_str());
                r.append(" }");
            },
            ErrorType::DatabaseError { .. } => {
                r.append(" { operation: ");
                r.append(quoted[0].as_str());
                r.append(", collection: ");
                r.append(quoted[1].as_str());
                r.append(" }");
            },
            _ => {},
        }
        r
    }

    /// The debug text of this kind: `Name`, or `Name { field: value, .. }`.
    pub fn debug_text(&self) -> (r: String)
        ensures
            r@ == debug_text(*self),
    {
        let quoted = self.quoted_fields();
        self.debug_text_with(&quoted)
    }
}

impl Error {
    /// The error of kind `error_type` raised at `at`.
    pub fn new(error_type: ErrorType, at: &CodeLocation) -> (e: Error)
        ensures
            e.error_type == error_type,
            e.location@ == location_text(*at),
            e.location@ == at.file@ + ":"@ + decimal_text(at.line as nat) + ":"@ + decimal_text(
                at.column as nat,
            ),
    {
        Error { error_type, location: at.render() }
    }

    /// The error that a failed `operation` on the database `collection`
    /// reports, raised at `at`.
    pub fn database(operation: &str, collection: &str, at: &CodeLocation) -> (e: Error)
        ensures
            is_database_error_at(e, operation@, collection@, *at),
    {
        Error::new(
            ErrorType::DatabaseError {
                operation: String::from_str(operation),
                collection: String::from_str(collection),
            },
            at,
        )
    }

    /// The text of this error, given the debug-quoted forms of the string
    /// fields of its kind in declaration order.
    pub fn to_string_with(&self, quoted: &Vec<String>) -> (r: String)
        requires
            quoted.len() == string_fields(self.error_type).len(),
        ensures
            r@ == display_text_with(*self, quoted@.map_values(|s: String| s@)),
    {
        let mut r = self.error_type.debug_text_with(quoted);
        r.append(" occurred in ");
        r.append(self.location.as_str());
        r
    }

    /// The text of this error: `<kind> occurred in <location>`.
    pub fn to_string(&self) -> (r: String)
        ensures
            r@ == display_text(*self),
    {
        let quoted = self.error_type.quoted_fields();
        self.to_string_with(&quoted)
    }
}

/// Folds a value or its absence, or a value or a foreign failure, into the
/// backend's own error model.
pub trait ToRevoltError<T>: Sized {
    /// The value that `self` holds, if it holds one.
    spec fn present_value(&self) -> Option<T>;

    /// Keeps a present value; otherwise reports an internal error raised at
    /// `at`, whatever the cause was, so that no detail of it reaches a client.
    fn to_internal_error(self, at: &CodeLocation) -> (r: Result<T, Error>)
        ensures
            match self.present_value() {
                Some(v) => r == Ok::<T, Error>(v),
                None => (r matches Err(e) && is_internal_error_at(e, *at)),
            };
}

impl<T, E> ToRevoltError<T> for Result<T, E> {
    open spec fn present_value(&self) -> Option<T> {
        match self {
            Ok(v) => Some(*v),
            Err(_) => None,
        }
    }

    fn to_internal_error(self, at: &CodeLocation) -> (r: Result<T, Error>) {
        match self {
            Ok(v) => Ok(v),
            Err(_) => Err(Error::new(ErrorType::InternalError, at)),
        }
    }
}

impl<T> ToRevoltError<T> for Option<T> {
    open spec fn present_value(&self) -> Option<T> {
        *self
    }

    fn to_internal_error(self, at: &CodeLocation) -> (r: Result<T, Error>) {
        match self {
            Some(v) => Ok(v),
            None => Err(Error::new(ErrorType::InternalError, at)),
        }
    }
}

/// The value of a result, as an option.
pub open spec fn ok_value<T, E>(r: Result<T, E>) -> Option<T> {
    match r {
        Ok(v) => Some(v),
        Err(_) => None,
    }
}

/// Folding a result and folding its value as an option agree: both keep the
/// same value, or both report the internal error.
pub proof fn lemma_result_agrees_with_its_option<T, E>(r: Result<T, E>)
    ensures
        r.present_value() == ok_value(r).present_value(),
{
}

/// The outcome of a database query: a result passes through, and any failure
/// becomes the database error of `operation` on `collection`, raised at `at`.
pub fn query_outcome<T, E>(
    outcome: Result<T, E>,
    operation: &str,
    collection: &str,
    at: &CodeLocation,
) -> (r: Result<T, Error>)
    ensures
        match outcome {
            Ok(v) => r == Ok::<T, Error>(v),
            Err(_) => (r matches Err(e) && is_database_error_at(e, operation@, collection@, *at)),
        },
{
    match outcome {
        Ok(v) => Ok(v),
        Err(_) => Err(Error::database(operation, collection, at)),
    }
}

} // verus!
