//! Delivery planning: which chat-API calls a composed message turns into,
//! and the key/value bodies of the simple calls.
//!
//! The transport that performs the JSON POSTs lives outside this crate;
//! it executes the planned calls in order and returns the first (text)
//! call's response to the invoker.

use vstd::prelude::*;
use vstd::string::*;
use crate::messages::Message;

verus! {

/// One media entry of a `sendMediaGroup` call; the kind is always
/// `photo` here.
pub struct PhotoMedia {
    pub kind: String,
    pub media: String,
}

/// One chat-API call, ready for the transport to serialize and POST.
pub enum ChatApiCall {
    SendMessage { chat_id: String, parse_mode: String, disable_web_page_preview: bool, text: String },
    SendPhoto { chat_id: String, photo: String },
    SendMediaGroup { chat_id: String, media: Vec<PhotoMedia> },
}

/// The key/value body of the text-send call: markup mode enabled,
/// link preview disabled.
pub fn get_text_body_map(message: &str, chat_id: &str) -> (r: Vec<(String, String)>)
    ensures
        r@.len() == 4,
        r@[0].0@ == "chat_id"@ && r@[0].1@ == chat_id@,
        r@[1].0@ == "parse_mode"@ && r@[1].1@ == "MarkdownV2"@,
        r@[2].0@ == "disable_web_page_preview"@ && r@[2].1@ == "true"@,
        r@[3].0@ == "text"@ && r@[3].1@ == message@,
{
    let mut r: Vec<(String, String)> = Vec::new();
    r.push((String::from_str("chat_id"), String::from_str(chat_id)));
    r.push((String::from_str("parse_mode"), String::from_str("MarkdownV2")));
    r.push((String::from_str("disable_web_page_preview"), String::from_str("true")));
    r.push((String::from_str("text"), String::from_str(message)));
    r
}

/// The key/value body of a photo-send call.
pub fn get_photo_body_map(photo: &str, chat_id: &str) -> (r: Vec<(String, String)>)
    ensures
        r@.len() == 2,
        r@[0].0@ == "chat_id"@ && r@[0].1@ == chat_id@,
        r@[1].0@ == "photo"@ && r@[1].1@ == photo@,
{
    let mut r: Vec<(String, String)> = Vec::new();
    r.push((String::from_str("chat_id"), String::from_str(chat_id)));
    r.push((String::from_str("photo"), String::from_str(photo)));
    r
}

/// One photo-typed media entry per image, in the images' order.
fn get_media_group_media(images: &Vec<String>) -> (r: Vec<PhotoMedia>)
    ensures
        r@.len() == images@.len(),
        forall|k: int|
            0 <= k < r@.len() ==> (#[trigger] r@[k]).kind@ == "photo"@ && r@[k].media@
                == images@[k]@,
{
    let mut r: Vec<PhotoMedia> = Vec::new();
    let mut i: usize = 0;
    while i < images.len()
        invariant
            i <= images@.len(),
            r@.len() == i,
            forall|k: int|
                0 <= k < i ==> (#[trigger] r@[k]).kind@ == "photo"@ && r@[k].media@
                    == images@[k]@,
        decreases images@.len() - i,
    {
        let entry = PhotoMedia {
            kind: String::from_str("photo"),
            media: String::from_str(images[i].as_str()),
        };
        r.push(entry);
        i = i + 1;
    }
    r
}

/// Plans the delivery of a composed message: exactly one text-send call,
/// followed by one photo call when there is a single image, or one
/// media-group call carrying every image in order when there are several,
/// and nothing more when there are none.
pub fn plan_chat_calls(message: Message, chat_id: &str) -> (calls: Vec<ChatApiCall>)
    ensures
        calls@.len() == (if message.images@.len() == 0 {
            1int
        } else {
            2int
        }),
        (calls@[0] matches ChatApiCall::SendMessage {
            chat_id: c,
            parse_mode: pm,
            disable_web_page_preview: d,
            text: t,
        } && c@ == chat_id@ && pm@ == "MarkdownV2"@ && d == true && t == message.text),
        message.images@.len() == 1 ==> (calls@[1] matches ChatApiCall::SendPhoto {
            chat_id: c,
            photo: p,
        } && c@ == chat_id@ && p@ == message.images@[0]@),
        message.images@.len() > 1 ==> (calls@[1] matches ChatApiCall::SendMediaGroup {
            chat_id: c,
            media: m,
        } && c@ == chat_id@ && m@.len() == message.images@.len() && (forall|k: int|
            0 <= k < m@.len() ==> (#[trigger] m@[k]).kind@ == "photo"@ && m@[k].media@
                == message.images@[k]@)),
{
    let Message { text, images } = message;
    let mut calls: Vec<ChatApiCall> = Vec::new();
    calls.push(
        ChatApiCall::SendMessage {
            chat_id: String::from_str(chat_id),
            parse_mode: String::from_str("MarkdownV2"),
            disable_web_page_preview: true,
            text,
        },
    );
    if images.len() == 1 {
        let photo = String::from_str(images[0].as_str());
        calls.push(ChatApiCall::SendPhoto { chat_id: String::from_str(chat_id), photo });
        proof {
            assert(calls@[1] matches ChatApiCall::SendPhoto { photo: p, .. } && p@
                == message.images@[0]@);
        }
    } else if images.len() > 1 {
        let media = get_media_group_media(&images);
        calls.push(ChatApiCall::SendMediaGroup { chat_id: String::from_str(chat_id), media });
    }
    calls
}

} // verus!
