//! Turns repository webhook events into Telegram chat notifications.
//!
//! The pipeline: classify the event-type identifier, compose a MarkdownV2
//! message for the event's payload (escaping user-controlled text and
//! extracting embedded image links), then plan the chat-API calls that
//! deliver the message. Network transport and payload deserialization live
//! outside this crate; everything here is pure computation on plain values.

pub mod bot;
pub mod classify;
pub mod images;
pub mod messages;
pub mod payloads;
pub mod sanitize;
pub mod strutil;
