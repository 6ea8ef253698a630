//! Composition of the chat notification for each event kind.
//!
//! Each composer returns `Some(Message)` or `None` ("produce no
//! notification"). Every user-supplied field is sanitized exactly once
//! before interpolation; the markup the composer itself introduces is
//! never escaped. The exact text of each message is pinned down by a spec
//! function per event kind.

use vstd::prelude::*;
use vstd::string::*;
use crate::images::{get_images, image_urls};
use crate::payloads::{CommentIssuePayload, Commit, IssuePayload, PushPayload, RepositoryPayload};
use crate::sanitize::{clean_string, sanitized};
use crate::strutil::{dec_digits, push_u64_decimal, str_eq};

verus! {

/// A composed chat notification: the MarkdownV2 text and the image URLs
/// found in the event's body text, in order of first appearance.
pub struct Message {
    pub text: String,
    pub images: Vec<String>,
}

/// The fixed glyph each event sub-case opens with.
pub enum EmojiType {
    PartyPopper,
    RaisingHand,
    Label,
    Tools,
    Rocket,
    Memo,
    Building,
}

/// The character each glyph renders as.
pub open spec fn emoji_char(e: EmojiType) -> char {
    match e {
        EmojiType::PartyPopper => '\u{1F389}',
        EmojiType::RaisingHand => '\u{1F64B}',
        EmojiType::Label => '\u{1F3F7}',
        EmojiType::Tools => '\u{1F6E0}',
        EmojiType::Rocket => '\u{1F680}',
        EmojiType::Memo => '\u{1F4DD}',
        EmojiType::Building => '\u{1F3D7}',
    }
}

/// Returns the one-character string for a glyph.
pub fn get_emoji(emoji: EmojiType) -> (r: String)
    ensures
        r@ == seq![emoji_char(emoji)],
{
    let s: &str = match emoji {
        EmojiType::PartyPopper => "\u{1F389}",
        EmojiType::RaisingHand => "\u{1F64B}",
        EmojiType::Label => "\u{1F3F7}",
        EmojiType::Tools => "\u{1F6E0}",
        EmojiType::Rocket => "\u{1F680}",
        EmojiType::Memo => "\u{1F4DD}",
        EmojiType::Building => "\u{1F3D7}",
    };
    proof {
        reveal_strlit("\u{1F389}");
        reveal_strlit("\u{1F64B}");
        reveal_strlit("\u{1F3F7}");
        reveal_strlit("\u{1F6E0}");
        reveal_strlit("\u{1F680}");
        reveal_strlit("\u{1F4DD}");
        reveal_strlit("\u{1F3D7}");
        assert(s@ =~= seq![emoji_char(emoji)]);
    }
    String::from_str(s)
}

/// Appends the sanitized form of `raw`.
fn append_clean(out: &mut String, raw: &str)
    ensures
        final(out)@ == old(out)@ + sanitized(raw@),
{
    let cleaned = clean_string(raw);
    out.append(cleaned.as_str());
}

/// The text of an `assigned`/`unassigned` issue notification.
pub open spec fn issue_assigned_text(p: IssuePayload) -> Seq<char> {
    seq![emoji_char(EmojiType::RaisingHand)] + "Issue *[\\#"@ + dec_digits(p.issue.number as nat)
        + "]("@ + sanitized(p.issue.html_url@) + ")* in ["@ + sanitized(p.repository.name@)
        + "]("@ + sanitized(p.repository.html_url@) + ")\n\n"@ + sanitized(p.issue.title@)
        + "\n\n__"@ + sanitized(p.action@) + "__ to *"@ + sanitized(p.assignee->0.login@)
        + "*\nBy *"@ + sanitized(p.sender.login@) + "*"@
}

/// The text of a `labeled`/`unlabeled` issue notification.
pub open spec fn issue_labeled_text(p: IssuePayload) -> Seq<char> {
    seq![emoji_char(EmojiType::Label)] + "Issue *[\\#"@ + dec_digits(p.issue.number as nat) + "]("@
        + sanitized(p.issue.html_url@) + ")* in ["@ + sanitized(p.repository.name@) + "]("@
        + sanitized(p.repository.html_url@) + ")\n\n"@ + sanitized(p.issue.title@) + "\n\n__"@
        + sanitized(p.action@) + "__ *"@ + sanitized(p.label->0.name@) + "*\nBy *"@ + sanitized(
        p.sender.login@,
    ) + "*"@
}

/// Everything of a closed-issue notification before the sanitized body.
pub open spec fn issue_closed_before_body(p: IssuePayload) -> Seq<char> {
    seq![
        emoji_char(EmojiType::PartyPopper),
        emoji_char(EmojiType::PartyPopper),
        emoji_char(EmojiType::PartyPopper),
    ] + "Issue *[\\#"@ + dec_digits(p.issue.number as nat) + "]("@ + sanitized(p.issue.html_url@)
        + ")* __"@ + sanitized(p.action@) + "__ in ["@ + sanitized(p.repository.name@) + "]("@ + sanitized(
        p.repository.html_url@,
    ) + ")"@ + seq![
        emoji_char(EmojiType::PartyPopper),
        emoji_char(EmojiType::PartyPopper),
        emoji_char(EmojiType::PartyPopper),
    ] + "\n\n__"@ + sanitized(p.issue.title@) + "__\n"@
}

/// Everything of a closed-issue notification after the sanitized body.
pub open spec fn issue_closed_after_body(p: IssuePayload) -> Seq<char> {
    "\n\nBy *"@ + sanitized(p.sender.login@) + "*"@
}

/// The text of a `closed` issue notification.
pub open spec fn issue_closed_text(p: IssuePayload) -> Seq<char> {
    issue_closed_before_body(p) + sanitized(p.issue.body@) + issue_closed_after_body(p)
}

/// Everything of a default issue notification before the sanitized body.
pub open spec fn issue_other_before_body(p: IssuePayload) -> Seq<char> {
    seq![emoji_char(EmojiType::Tools)] + "Issue *[\\#"@ + dec_digits(p.issue.number as nat) + "]("@
        + sanitized(p.issue.html_url@) + ")* __"@ + sanitized(p.action@) + "__ in ["@ + sanitized(
        p.repository.name@,
    ) + "]("@ + sanitized(p.repository.html_url@) + ")\n\n__"@ + sanitized(p.issue.title@)
        + "__\n"@
}

/// Everything of a default issue notification after the sanitized body.
pub open spec fn issue_other_after_body(p: IssuePayload) -> Seq<char> {
    "\n\nBy *"@ + sanitized(p.sender.login@) + "*"@
}

/// The text of an issue notification whose action has no special layout.
pub open spec fn issue_other_text(p: IssuePayload) -> Seq<char> {
    issue_other_before_body(p) + sanitized(p.issue.body@) + issue_other_after_body(p)
}

/// Which of the four issue layouts `action` selects.
pub open spec fn issue_message_text(p: IssuePayload) -> Seq<char> {
    if p.action@ == "assigned"@ || p.action@ == "unassigned"@ {
        issue_assigned_text(p)
    } else if p.action@ == "labeled"@ || p.action@ == "unlabeled"@ {
        issue_labeled_text(p)
    } else if p.action@ == "closed"@ {
        issue_closed_text(p)
    } else {
        issue_other_text(p)
    }
}

/// Composes the notification for an issue event. The `assigned`,
/// `unassigned`, `labeled` and `unlabeled` actions are documented by the
/// source system to always carry an assignee resp. label, so their absence
/// is excluded up front rather than handled.
pub fn get_issue_chat_message(payload: IssuePayload) -> (r: Option<Message>)
    requires
        payload.action@ == "assigned"@ || payload.action@ == "unassigned"@
            ==> payload.assignee is Some,
        payload.action@ == "labeled"@ || payload.action@ == "unlabeled"@ ==> payload.label is Some,
    ensures
        r matches Some(m) && m.text@ == issue_message_text(payload) && m.images.deep_view()
            == image_urls(payload.issue.body@),
{
    let images = get_images(payload.issue.body.as_str());
    let mut text: String;
    if str_eq(payload.action.as_str(), "assigned") || str_eq(payload.action.as_str(), "unassigned")
    {
        text = get_emoji(EmojiType::RaisingHand);
        text.append("Issue *[\\#");
        push_u64_decimal(&mut text, payload.issue.number);
        text.append("](");
        append_clean(&mut text, payload.issue.html_url.as_str());
        text.append(")* in [");
        append_clean(&mut text, payload.repository.name.as_str());
        text.append("](");
        append_clean(&mut text, payload.repository.html_url.as_str());
        text.append(")\n\n");
        append_clean(&mut text, payload.issue.title.as_str());
        text.append("\n\n__");
        append_clean(&mut text, payload.action.as_str());
        text.append("__ to *");
        append_clean(&mut text, payload.assignee.as_ref().unwrap().login.as_str());
        text.append("*\nBy *");
        append_clean(&mut text, payload.sender.login.as_str());
        text.append("*");
        proof {
            assert(text@ =~= issue_assigned_text(payload));
        }
    } else if str_eq(payload.action.as_str(), "labeled") || str_eq(
        payload.action.as_str(),
        "unlabeled",
    ) {
        text = get_emoji(EmojiType::Label);
        text.append("Issue *[\\#");
        push_u64_decimal(&mut text, payload.issue.number);
        text.append("](");
        append_clean(&mut text, payload.issue.html_url.as_str());
        text.append(")* in [");
        append_clean(&mut text, payload.repository.name.as_str());
        text.append("](");
        append_clean(&mut text, payload.repository.html_url.as_str());
        text.append(")\n\n");
        append_clean(&mut text, payload.issue.title.as_str());
        text.append("\n\n__");
        append_clean(&mut text, payload.action.as_str());
        text.append("__ *");
        append_clean(&mut text, payload.label.as_ref().unwrap().name.as_str());
        text.append("*\nBy *");
        append_clean(&mut text, payload.sender.login.as_str());
        text.append("*");
        proof {
            assert(text@ =~= issue_labeled_text(payload));
        }
    } else if str_eq(payload.action.as_str(), "closed") {
        let popper = get_emoji(EmojiType::PartyPopper);
        text = get_emoji(EmojiType::PartyPopper);
        text.append(popper.as_str());
        text.append(popper.as_str());
        text.append("Issue *[\\#");
        push_u64_decimal(&mut text, payload.issue.number);
        text.append("](");
        append_clean(&mut text, payload.issue.html_url.as_str());
        text.append(")* __");
        append_clean(&mut text, payload.action.as_str());
        text.append("__ in [");
        append_clean(&mut text, payload.repository.name.as_str());
        text.append("](");
        append_clean(&mut text, payload.repository.html_url.as_str());
        text.append(")");
        text.append(popper.as_str());
        text.append(popper.as_str());
        text.append(popper.as_str());
        text.append("\n\n__");
        append_clean(&mut text, payload.issue.title.as_str());
        text.append("__\n");
        append_clean(&mut text, payload.issue.body.as_str());
        text.append("\n\nBy *");
        append_clean(&mut text, payload.sender.login.as_str());
        text.append("*");
        proof {
            assert(text@ =~= issue_closed_text(payload));
        }
    } else {
        text = get_emoji(EmojiType::Tools);
        text.append("Issue *[\\#");
        push_u64_decimal(&mut text, payload.issue.number);
        text.append("](");
        append_clean(&mut text, payload.issue.html_url.as_str());
        text.append(")* __");
        append_clean(&mut text, payload.action.as_str());
        text.append("__ in [");
        append_clean(&mut text, payload.repository.name.as_str());
        text.append("](");
        append_clean(&mut text, payload.repository.html_url.as_str());
        text.append(")\n\n__");
        append_clean(&mut text, payload.issue.title.as_str());
        text.append("__\n");
        append_clean(&mut text, payload.issue.body.as_str());
        text.append("\n\nBy *");
        append_clean(&mut text, payload.sender.login.as_str());
        text.append("*");
        proof {
            assert(text@ =~= issue_other_text(payload));
        }
    }
    Some(Message { text, images })
}

/// The text of an issue-comment notification.
pub open spec fn issue_comment_text(p: CommentIssuePayload) -> Seq<char> {
    seq![emoji_char(EmojiType::Memo)] + "Comment on isssue *[\\#"@ + dec_digits(
        p.issue.number as nat,
    ) + "]("@ + sanitized(p.issue.html_url@) + ")*\nIn "@ + sanitized(p.repository.name@)
        + "\nBy *"@ + sanitized(p.sender.login@) + "*\n\n"@ + sanitized(p.comment.body@)
}

/// Composes the notification for a comment left on an issue.
pub fn get_issue_comment_chat_message(payload: CommentIssuePayload) -> (r: Option<Message>)
    ensures
        r matches Some(m) && m.text@ == issue_comment_text(payload) && m.images.deep_view()
            == image_urls(payload.comment.body@),
{
    let images = get_images(payload.comment.body.as_str());
    let mut text = get_emoji(EmojiType::Memo);
    text.append("Comment on isssue *[\\#");
    push_u64_decimal(&mut text, payload.issue.number);
    text.append("](");
    append_clean(&mut text, payload.issue.html_url.as_str());
    text.append(")*\nIn ");
    append_clean(&mut text, payload.repository.name.as_str());
    text.append("\nBy *");
    append_clean(&mut text, payload.sender.login.as_str());
    text.append("*\n\n");
    append_clean(&mut text, payload.comment.body.as_str());
    proof {
        assert(text@ =~= issue_comment_text(payload));
    }
    Some(Message { text, images })
}

/// The text of a repository-lifecycle notification.
pub open spec fn repository_text(p: RepositoryPayload) -> Seq<char> {
    seq![emoji_char(EmojiType::Building)] + "Repository *[\\"@ + sanitized(
        p.repository.full_name@,
    ) + "]("@ + sanitized(p.repository.html_url@) + ")* __"@ + sanitized(p.action@) + "__\nBy *"@
        + sanitized(p.sender.login@) + "*\n\n"@ + sanitized(p.repository.description@)
}

/// Composes the notification for a repository-lifecycle event. Such
/// events carry no body text, so the image list is always empty.
pub fn get_repository_chat_message(payload: RepositoryPayload) -> (r: Option<Message>)
    ensures
        r matches Some(m) && m.text@ == repository_text(payload) && m.images@.len() == 0,
{
    let mut text = get_emoji(EmojiType::Building);
    text.append("Repository *[\\");
    append_clean(&mut text, payload.repository.full_name.as_str());
    text.append("](");
    append_clean(&mut text, payload.repository.html_url.as_str());
    text.append(")* __");
    append_clean(&mut text, payload.action.as_str());
    text.append("__\nBy *");
    append_clean(&mut text, payload.sender.login.as_str());
    text.append("*\n\n");
    append_clean(&mut text, payload.repository.description.as_str());
    proof {
        assert(text@ =~= repository_text(payload));
    }
    Some(Message { text, images: Vec::new() })
}

/// One line of a push notification: the sanitized commit message linked
/// to the sanitized commit URL.
pub open spec fn commit_line(c: Commit) -> Seq<char> {
    "\t\t__["@ + sanitized(c.message@) + "]("@ + sanitized(c.url@) + ")__"@
}

/// All commit lines, joined by single newlines.
pub open spec fn commit_lines(cs: Seq<Commit>) -> Seq<char>
    decreases cs.len(),
{
    if cs.len() == 0 {
        Seq::empty()
    } else if cs.len() == 1 {
        commit_line(cs[0])
    } else {
        commit_line(cs[0]) + "\n"@ + commit_lines(cs.skip(1))
    }
}

/// Appends the lines of `commits[i..]`, joined by newlines.
fn push_commit_lines(out: &mut String, commits: &Vec<Commit>, i: usize)
    requires
        i <= commits@.len(),
    ensures
        final(out)@ == old(out)@ + commit_lines(commits@.skip(i as int)),
    decreases commits@.len() - i,
{
    if i == commits.len() {
        proof {
            assert(commits@.skip(i as int) =~= Seq::<Commit>::empty());
            assert(old(out)@ + commit_lines(commits@.skip(i as int)) =~= old(out)@);
        }
        return ;
    }
    text_commit_line(out, &commits[i]);
    if i + 1 < commits.len() {
        out.append("\n");
        push_commit_lines(out, commits, i + 1);
        proof {
            assert(commits@.skip(i as int).skip(1) =~= commits@.skip(i + 1));
            assert(commits@.skip(i as int)[0] == commits@[i as int]);
            assert(commits@.skip(i as int).len() > 1);
            assert(old(out)@ + commit_line(commits@[i as int]) + "\n"@ + commit_lines(
                commits@.skip(i + 1),
            ) =~= old(out)@ + commit_lines(commits@.skip(i as int)));
        }
    } else {
        proof {
            assert(commits@.skip(i as int).len() == 1);
            assert(commits@.skip(i as int)[0] == commits@[i as int]);
        }
    }
}

/// Appends one commit line.
fn text_commit_line(out: &mut String, c: &Commit)
    ensures
        final(out)@ == old(out)@ + commit_line(*c),
{
    out.append("\t\t__[");
    append_clean(out, c.message.as_str());
    out.append("](");
    append_clean(out, c.url.as_str());
    out.append(")__");
    proof {
        assert(final(out)@ =~= old(out)@ + commit_line(*c));
    }
}

/// Everything of a push notification before the commit lines.
pub open spec fn push_before_commits(p: PushPayload) -> Seq<char> {
    seq![emoji_char(EmojiType::Rocket)] + "__Push__ in *[\\"@ + sanitized(p.repository.name@)
        + "]("@ + sanitized(p.repository.html_url@) + ")*\nCommts:\n"@
}

/// Everything of a push notification after the commit lines.
pub open spec fn push_after_commits(p: PushPayload) -> Seq<char> {
    "\n\nBy *"@ + sanitized(p.sender.login@) + "*"@
}

/// The text of a push notification.
pub open spec fn push_text(p: PushPayload) -> Seq<char> {
    push_before_commits(p) + commit_lines(p.commits@) + push_after_commits(p)
}

/// Composes the notification for a push event: one line per commit, in
/// commit order. Push events carry no body text, so the image list is
/// always empty.
pub fn get_push_chat_message(payload: PushPayload) -> (r: Option<Message>)
    ensures
        r matches Some(m) && m.text@ == push_text(payload) && m.images@.len() == 0,
{
    let mut text = get_emoji(EmojiType::Rocket);
    text.append("__Push__ in *[\\");
    append_clean(&mut text, payload.repository.name.as_str());
    text.append("](");
    append_clean(&mut text, payload.repository.html_url.as_str());
    text.append(")*\nCommts:\n");
    push_commit_lines(&mut text, &payload.commits, 0);
    text.append("\n\nBy *");
    append_clean(&mut text, payload.sender.login.as_str());
    text.append("*");
    proof {
        assert(payload.commits@.skip(0) =~= payload.commits@);
        assert(text@ =~= push_text(payload));
    }
    Some(Message { text, images: Vec::new() })
}

/// The five issue actions with a layout of their own are pairwise
/// distinct identifiers.
proof fn lemma_issue_action_literals_distinct()
    ensures
        "closed"@ != "assigned"@,
        "closed"@ != "unassigned"@,
        "closed"@ != "labeled"@,
        "closed"@ != "unlabeled"@,
{
    reveal_strlit("closed");
    reveal_strlit("assigned");
    reveal_strlit("unassigned");
    reveal_strlit("labeled");
    reveal_strlit("unlabeled");
    assert("closed"@.len() == 6);
    assert("assigned"@.len() == 8);
    assert("unassigned"@.len() == 10);
    assert("labeled"@.len() == 7);
    assert("unlabeled"@.len() == 9);
}

/// Law: a closed-issue notification opens with three consecutive
/// party-popper glyphs and embeds the sanitized issue body between the
/// fixed lead-in and the fixed sign-off.
pub proof fn lemma_issue_closed_message_shape(p: IssuePayload)
    requires
        p.action@ == "closed"@,
    ensures
        issue_message_text(p) == issue_closed_before_body(p) + sanitized(p.issue.body@)
            + issue_closed_after_body(p),
        issue_message_text(p)[0] == emoji_char(EmojiType::PartyPopper),
        issue_message_text(p)[1] == emoji_char(EmojiType::PartyPopper),
        issue_message_text(p)[2] == emoji_char(EmojiType::PartyPopper),
{
    lemma_issue_action_literals_distinct();
    assert(issue_message_text(p) == issue_closed_text(p));
}

/// Law: an issue notification whose action has no layout of its own
/// opens with the tools glyph and embeds the sanitized issue body between
/// the fixed lead-in and the fixed sign-off.
pub proof fn lemma_issue_default_message_shape(p: IssuePayload)
    requires
        p.action@ != "assigned"@,
        p.action@ != "unassigned"@,
        p.action@ != "labeled"@,
        p.action@ != "unlabeled"@,
        p.action@ != "closed"@,
    ensures
        issue_message_text(p) == issue_other_before_body(p) + sanitized(p.issue.body@)
            + issue_other_after_body(p),
        issue_message_text(p)[0] == emoji_char(EmojiType::Tools),
{
    assert(issue_message_text(p) == issue_other_text(p));
}

/// Law: a push notification with two commits carries exactly two commit
/// lines between the fixed lead-in and the fixed sign-off, in commit
/// order, separated by one newline; each line links the sanitized commit
/// message to the sanitized commit URL (see `commit_line`).
pub proof fn lemma_push_two_commits_shape(p: PushPayload)
    requires
        p.commits@.len() == 2,
    ensures
        push_text(p) == push_before_commits(p) + (commit_line(p.commits@[0]) + "\n"@
            + commit_line(p.commits@[1])) + push_after_commits(p),
{
    assert(p.commits@.skip(1).len() == 1);
    assert(p.commits@.skip(1)[0] == p.commits@[1]);
    assert(commit_lines(p.commits@.skip(1)) == commit_line(p.commits@[1]));
    assert(commit_lines(p.commits@) == commit_line(p.commits@[0]) + "\n"@ + commit_line(
        p.commits@[1],
    ));
}

/// Whether a catch-all action is on the suppression list and produces no
/// notification at all.
pub open spec fn is_ignored_action(s: Seq<char>) -> bool {
    s == "label"@
}

/// The text reported for an unrecognized, unsuppressed action.
pub open spec fn unimplemented_text(s: Seq<char>) -> Seq<char> {
    "Received unimplemented action: "@ + s
}

/// Composes the notification for an event kind this system does not
/// model: suppressed actions yield no message, all others a plain-text
/// note naming the action.
pub fn get_unimplemented_action_message(action: String) -> (r: Option<Message>)
    ensures
        is_ignored_action(action@) ==> r is None,
        !is_ignored_action(action@) ==> (r matches Some(m) && m.text@ == unimplemented_text(
            action@,
        ) && m.images@.len() == 0),
{
    if str_eq(action.as_str(), "label") {
        None
    } else {
        let mut text = String::from_str("Received unimplemented action: ");
        text.append(action.as_str());
        Some(Message { text, images: Vec::new() })
    }
}

} // verus!
