//! What may be stored, how the editor is started, and what counts as a yes.

use crate::text::{
    blank, chars_of, is_blank, lowered, only_filled, rows, split_at_spaces, string_of,
    strings_of, texts, to_lower, trim, trimmed, words,
};
use vstd::prelude::*;
use vstd::utf8::encode_utf8;

verus! {

/// The most bytes that a snippet's content may take.
pub const MAX_CONTENT_BYTES: usize = 1_000_000;

/// The number of bytes that a text takes in UTF-8, as `str::len` counts
/// them.
pub open spec fn byte_len(content: Seq<char>) -> usize {
    encode_utf8(content).len() as usize
}

/// Why a content cannot be stored.
pub open spec fn content_fault(content: Seq<char>) -> Option<Seq<char>> {
    if is_blank(content) {
        Some("Content cannot be empty"@)
    } else if byte_len(content) > MAX_CONTENT_BYTES {
        Some("Content is too large (max 1MB)"@)
    } else {
        None
    }
}

/// Accepts a content that holds more than whitespace and takes at most a
/// million bytes; names the fault of any other.
pub fn validate_content(content: &str) -> (r: Result<(), String>)
    ensures
        match r {
            Ok(_) => content_fault(content@) is None,
            Err(e) => content_fault(content@) == Some(e@),
        },
{
    if blank(&chars_of(content)) {
        return Err("Content cannot be empty".to_owned());
    }
    if content.len() > MAX_CONTENT_BYTES {
        return Err("Content is too large (max 1MB)".to_owned());
    }
    Ok(())
}

/// An answer to a yes-or-no question counts as yes when it is the letter
/// `y`, in either case, with nothing but whitespace around it.
pub open spec fn is_yes(input: Seq<char>) -> bool {
    lowered(trimmed(input)) == seq!['y']
}

/// Whether an answer to a yes-or-no question counts as yes.
pub fn answer_is_yes(input: &str) -> (b: bool)
    ensures
        b == is_yes(input@),
{
    let answer = string_of(&trim(&chars_of(input)));
    let low = chars_of(to_lower(answer.as_str()).as_str());
    let yes = low.len() == 1 && low[0] == 'y';
    proof {
        if yes {
            assert(low@ =~= seq!['y']);
        }
    }
    yes
}

/// The program that an editor command names: its first word, or `vi` where
/// it has none.
pub open spec fn command_name(command: Seq<char>) -> Seq<char> {
    if words(command).len() > 0 {
        words(command)[0]
    } else {
        "vi"@
    }
}

/// The arguments that an editor command gives: its words after the first.
pub open spec fn command_args(command: Seq<char>) -> Seq<Seq<char>> {
    if words(command).len() > 0 {
        words(command).skip(1)
    } else {
        Seq::empty()
    }
}

/// Splits an editor command at whitespace into the program and its
/// arguments.
pub fn split_command(command: &str) -> (r: (String, Vec<String>))
    ensures
        r.0@ == command_name(command@),
        texts(r.1@) == command_args(command@),
{
    let found = only_filled(split_at_spaces(&chars_of(command)));
    if found.len() == 0 {
        let none: Vec<String> = Vec::new();
        proof {
            assert(texts(none@) =~= Seq::<Seq<char>>::empty());
        }
        return ("vi".to_owned(), none);
    }
    let all = strings_of(&found);
    proof {
        assert(texts(all@).len() == all@.len());
        assert(rows(found@).len() == found@.len());
    }
    let program = all[0].clone();
    let mut args: Vec<String> = Vec::new();
    let mut i: usize = 1;
    proof {
        assert(texts(args@) =~= texts(all@).subrange(1, 1));
    }
    while i < all.len()
        invariant
            1 <= i <= all.len(),
            texts(args@) == texts(all@).subrange(1, i as int),
        decreases all.len() - i,
    {
        let arg = all[i].clone();
        let ghost before = args@;
        args.push(arg);
        proof {
            assert(texts(args@) =~= texts(before).push(arg@));
            assert(texts(all@).subrange(1, i + 1) =~= texts(all@).subrange(1, i as int).push(
                all@[i as int]@,
            ));
        }
        i += 1;
    }
    proof {
        assert(texts(all@).subrange(1, all.len() as int) =~= texts(all@).skip(1));
        assert(texts(all@)[0] == all@[0]@);
    }
    (program, args)
}

/// The editor to start: the configured one; else the one that the
/// environment names; else, on Windows, `notepad`; else the first of `nvim`
/// and `vim` that is installed; else `nano`.
pub open spec fn chosen_editor(
    configured: Seq<char>,
    from_env: Option<Seq<char>>,
    windows: bool,
    has_nvim: bool,
    has_vim: bool,
) -> Seq<char> {
    if configured.len() > 0 {
        configured
    } else if from_env is Some {
        from_env->Some_0
    } else if windows {
        "notepad"@
    } else if has_nvim {
        "nvim"@
    } else if has_vim {
        "vim"@
    } else {
        "nano"@
    }
}

/// Chooses the editor to start from the settings, the environment and what
/// is installed.
pub fn choose_editor(
    configured: &str,
    from_env: Option<String>,
    windows: bool,
    has_nvim: bool,
    has_vim: bool,
) -> (r: String)
    ensures
        r@ == chosen_editor(
            configured@,
            crate::config::opt_text(from_env),
            windows,
            has_nvim,
            has_vim,
        ),
{
    if !configured.is_empty() {
        return configured.to_owned();
    }
    match from_env {
        Some(editor) => editor,
        None => {
            if windows {
                "notepad".to_owned()
            } else if has_nvim {
                "nvim".to_owned()
            } else if has_vim {
                "vim".to_owned()
            } else {
                "nano".to_owned()
            }
        },
    }
}

} // verus!
