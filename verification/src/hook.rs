//! The git commit-msg hook that checks commit messages with the
//! text-improvement service.
use vstd::prelude::*;

use crate::languages::{is_write_supported, write_supported_codes};
use crate::text::{replace_all, replace_text};

verus! {

/// The shell script of the hook, with `__BABELLO_TO__` standing for the
/// language and `__BABELLO_EXIT_ON_ISSUE__` for the exit status on a
/// suggested correction.
pub const COMMIT_MSG_HOOK_TEMPLATE: &'static str = "#!/bin/sh
#
# git commit-msg hook: checks the spelling and grammar of the commit
# message with babello before the commit is recorded.
#
# Save it as .git/hooks/commit-msg and make it executable. It needs the
# babello binary on $PATH and DEEPL_API_KEY in the environment.

BABELLO_TO=\"__BABELLO_TO__\"
EXIT_ON_ISSUE=__BABELLO_EXIT_ON_ISSUE__

msg=$(grep -v '^#' \"$1\" | sed -e '/^[[:space:]]*$/d')

if [ -z \"$msg\" ]; then
    exit 0
fi

if ! command -v babello >/dev/null 2>&1; then
    echo \"commit-msg: babello is not on PATH, the message was not checked\" >&2
    exit 0
fi

if ! improved=$(babello --improve --to \"$BABELLO_TO\" \"$msg\" 2>/dev/null); then
    echo \"commit-msg: babello could not check the message\" >&2
    exit 0
fi

corrected=${improved#\"$msg -> \"}

if [ \"$corrected\" != \"$msg\" ]; then
    echo \"commit-msg: babello suggests a corrected message:\" >&2
    echo \"\" >&2
    echo \"$corrected\" >&2
    echo \"\" >&2
    exit \"$EXIT_ON_ISSUE\"
fi

exit 0
";

/// The language of the hook when none is given.
pub open spec fn hook_language(to: Option<Seq<char>>) -> Seq<char> {
    match to {
        Some(t) => t,
        None => "EN-US"@,
    }
}

/// The view of an optional text.
pub open spec fn opt_str_view(to: Option<&str>) -> Option<Seq<char>> {
    match to {
        Some(t) => Some(t@),
        None => None,
    }
}

/// The hook for language `lang`, which exits with `exit_status` when the
/// service suggests a correction.
pub open spec fn rendered_hook(lang: Seq<char>, exit_status: Seq<char>) -> Seq<char> {
    replace_all(
        replace_all(COMMIT_MSG_HOOK_TEMPLATE@, "__BABELLO_TO__"@, lang),
        "__BABELLO_EXIT_ON_ISSUE__"@,
        exit_status,
    )
}

/// The exit status of the hook on a suggested correction: 1 blocks the
/// commit, 0 only warns.
pub open spec fn hook_exit_status(block: bool) -> Seq<char> {
    if block {
        "1"@
    } else {
        "0"@
    }
}

/// The message for a language that the hook cannot check.
pub open spec fn hook_language_error(lang: Seq<char>) -> Seq<char> {
    "'"@ + lang + "' unsupported language for commit-msg correction"@
}

/// Renders the commit-msg hook for language `to` (English (American) when
/// none is given); with `block` the hook refuses a commit whose message the
/// service would correct, else it only warns.
pub fn generate_commit_msg_hook(to: Option<&str>, block: bool) -> (r: Result<String, String>)
    ensures
        r is Ok <==> write_supported_codes().contains(hook_language(opt_str_view(to))),
        r matches Ok(hook) ==> hook@ == rendered_hook(hook_language(opt_str_view(to)), hook_exit_status(block)),
        r matches Err(e) ==> e@ == hook_language_error(hook_language(opt_str_view(to))),
{
    let lang: &str = match to {
        Some(t) => t,
        None => "EN-US",
    };
    if !is_write_supported(lang) {
        let mut e = String::from_str("'");
        e.append(lang);
        e.append("' unsupported language for commit-msg correction");
        return Err(e);
    }
    let exit_on_issue: &str = if block {
        "1"
    } else {
        "0"
    };
    proof {
        reveal_strlit("__BABELLO_TO__");
        reveal_strlit("__BABELLO_EXIT_ON_ISSUE__");
    }
    let with_lang = replace_text(COMMIT_MSG_HOOK_TEMPLATE, "__BABELLO_TO__", lang);
    let hook = replace_text(with_lang.as_str(), "__BABELLO_EXIT_ON_ISSUE__", exit_on_issue);
    Ok(hook)
}

} // verus!
