use telegram_notify::messages::{
    get_emoji, get_issue_chat_message, get_issue_comment_chat_message, get_push_chat_message,
    get_repository_chat_message, get_unimplemented_action_message, EmojiType,
};
use telegram_notify::payloads::{
    Comment, CommentIssuePayload, Commit, Issue, IssuePayload, IssueRef, Label, PushPayload, Repo,
    RepoFull, RepositoryPayload, User,
};

fn issue_payload(action: &str) -> IssuePayload {
    IssuePayload {
        action: action.to_string(),
        issue: Issue {
            number: 7,
            title: "Big fix".to_string(),
            body: "All done.".to_string(),
            html_url: "https://github.com/o/r/issues/7".to_string(),
        },
        repository: Repo {
            name: "repo".to_string(),
            html_url: "https://github.com/o/r".to_string(),
        },
        assignee: Some(User { login: "bob_s".to_string() }),
        label: Some(Label { name: "bug".to_string() }),
        sender: User { login: "al-ice".to_string() },
    }
}

#[test]
fn emoji_glyphs() {
    assert_eq!(get_emoji(EmojiType::PartyPopper), "\u{1F389}");
    assert_eq!(get_emoji(EmojiType::RaisingHand), "\u{1F64B}");
    assert_eq!(get_emoji(EmojiType::Label), "\u{1F3F7}");
    assert_eq!(get_emoji(EmojiType::Tools), "\u{1F6E0}");
    assert_eq!(get_emoji(EmojiType::Rocket), "\u{1F680}");
    assert_eq!(get_emoji(EmojiType::Memo), "\u{1F4DD}");
    assert_eq!(get_emoji(EmojiType::Building), "\u{1F3D7}");
}

#[test]
fn unimplemented_label_action_is_suppressed() {
    assert!(get_unimplemented_action_message("label".to_string()).is_none());
}

#[test]
fn unimplemented_other_action_is_reported() {
    let m = get_unimplemented_action_message("foo".to_string()).unwrap();
    assert_eq!(m.text, "Received unimplemented action: foo");
    assert!(m.images.is_empty());
}

#[test]
fn issue_closed_message_text() {
    let m = get_issue_chat_message(issue_payload("closed")).unwrap();
    assert_eq!(
        m.text,
        "\u{1F389}\u{1F389}\u{1F389}Issue *[\\#7](https://github\\.com/o/r/issues/7)* \
         __closed__ in [repo](https://github\\.com/o/r)\u{1F389}\u{1F389}\u{1F389}\n\n\
         __Big fix__\nAll done\\.\n\nBy *al\\-ice*"
    );
    assert!(m.images.is_empty());
    assert!(m.text.matches('\u{1F389}').count() == 6);
}

#[test]
fn issue_opened_message_text() {
    let m = get_issue_chat_message(issue_payload("opened")).unwrap();
    assert_eq!(
        m.text,
        "\u{1F6E0}Issue *[\\#7](https://github\\.com/o/r/issues/7)* __opened__ in \
         [repo](https://github\\.com/o/r)\n\n__Big fix__\nAll done\\.\n\nBy *al\\-ice*"
    );
}

#[test]
fn issue_assigned_message_text() {
    let m = get_issue_chat_message(issue_payload("assigned")).unwrap();
    assert_eq!(
        m.text,
        "\u{1F64B}Issue *[\\#7](https://github\\.com/o/r/issues/7)* in \
         [repo](https://github\\.com/o/r)\n\nBig fix\n\n__assigned__ to *bob\\_s*\nBy *al\\-ice*"
    );
}

#[test]
fn issue_labeled_message_text() {
    let m = get_issue_chat_message(issue_payload("labeled")).unwrap();
    assert_eq!(
        m.text,
        "\u{1F3F7}Issue *[\\#7](https://github\\.com/o/r/issues/7)* in \
         [repo](https://github\\.com/o/r)\n\nBig fix\n\n__labeled__ *bug*\nBy *al\\-ice*"
    );
}

#[test]
fn issue_action_is_sanitized() {
    let m = get_issue_chat_message(issue_payload("review_requested")).unwrap();
    assert_eq!(
        m.text,
        "\u{1F6E0}Issue *[\\#7](https://github\\.com/o/r/issues/7)* __review\\_requested__ in \
         [repo](https://github\\.com/o/r)\n\n__Big fix__\nAll done\\.\n\nBy *al\\-ice*"
    );
}

#[test]
fn issue_body_images_are_extracted() {
    let url = "https://user-images.githubusercontent.com/1234567/abc123def-45ab67cd-ab12-cd34-ef56-0123456789ab.png";
    let mut payload = issue_payload("opened");
    payload.issue.body = format!("See {} now", url);
    let m = get_issue_chat_message(payload).unwrap();
    assert_eq!(m.images, vec![url.to_string()]);
}

#[test]
fn issue_comment_message_text() {
    let payload = CommentIssuePayload {
        action: "created".to_string(),
        issue: IssueRef {
            number: 7,
            html_url: "https://github.com/o/r/issues/7".to_string(),
        },
        comment: Comment { body: "Nice!".to_string() },
        repository: Repo {
            name: "repo".to_string(),
            html_url: "https://github.com/o/r".to_string(),
        },
        sender: User { login: "al-ice".to_string() },
    };
    let m = get_issue_comment_chat_message(payload).unwrap();
    assert_eq!(
        m.text,
        "\u{1F4DD}Comment on isssue *[\\#7](https://github\\.com/o/r/issues/7)*\nIn repo\n\
         By *al\\-ice*\n\nNice\\!"
    );
    assert!(m.images.is_empty());
}

#[test]
fn repository_message_text() {
    let payload = RepositoryPayload {
        action: "created".to_string(),
        repository: RepoFull {
            full_name: "owner/repo".to_string(),
            html_url: "https://github.com/o/r".to_string(),
            description: "A demo.".to_string(),
        },
        sender: User { login: "al-ice".to_string() },
    };
    let m = get_repository_chat_message(payload).unwrap();
    assert_eq!(
        m.text,
        "\u{1F3D7}Repository *[\\owner/repo](https://github\\.com/o/r)* __created__\n\
         By *al\\-ice*\n\nA demo\\."
    );
    assert!(m.images.is_empty());
}

#[test]
fn push_message_with_two_commits() {
    let payload = PushPayload {
        action: String::new(),
        commits: vec![
            Commit {
                message: "Add thing.".to_string(),
                url: "https://github.com/o/r/commit/1".to_string(),
            },
            Commit {
                message: "Fix bug!".to_string(),
                url: "https://github.com/o/r/commit/2".to_string(),
            },
        ],
        repository: Repo {
            name: "repo".to_string(),
            html_url: "https://github.com/o/r".to_string(),
        },
        sender: User { login: "al-ice".to_string() },
    };
    let m = get_push_chat_message(payload).unwrap();
    assert_eq!(
        m.text,
        "\u{1F680}__Push__ in *[\\repo](https://github\\.com/o/r)*\nCommts:\n\
         \t\t__[Add thing\\.](https://github\\.com/o/r/commit/1)__\n\
         \t\t__[Fix bug\\!](https://github\\.com/o/r/commit/2)__\n\nBy *al\\-ice*"
    );
    assert!(m.images.is_empty());
}

#[test]
fn push_message_with_no_commits() {
    let payload = PushPayload {
        action: String::new(),
        commits: vec![],
        repository: Repo {
            name: "repo".to_string(),
            html_url: "https://github.com/o/r".to_string(),
        },
        sender: User { login: "al-ice".to_string() },
    };
    let m = get_push_chat_message(payload).unwrap();
    assert_eq!(
        m.text,
        "\u{1F680}__Push__ in *[\\repo](https://github\\.com/o/r)*\nCommts:\n\n\nBy *al\\-ice*"
    );
}
