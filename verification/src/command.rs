//! The grammar of commands. A message is a command when its first word,
//! the text up to the first space, is `/chat`, `/image`, `/group` or
//! `/reset` in any mix of upper and lower case, alone or followed by `@` and
//! the name of this bot. What follows the first space is the command's
//! text; `/chat`, `/image` and `/group` need some.

use crate::telegram_bot::{Command, CommandView};
use crate::text::{
    chars_of, eq_ignoring_ascii_case, find_in, position_from, position_from_bounds,
    slice_eq_ignoring_ascii_case,
};
use vstd::prelude::*;
use vstd::string::*;

verus! {

pub const CHAT_WORD: &'static str = "/chat";

pub const IMAGE_WORD: &'static str = "/image";

pub const GROUP_WORD: &'static str = "/group";

pub const RESET_WORD: &'static str = "/reset";

/// The first word of a message: everything before its first space.
pub open spec fn command_head(text: Seq<char>) -> Seq<char> {
    text.subrange(0, position_from(text, ' ', 0))
}

/// The text of a command: everything after the first space of the message,
/// and nothing where the message has no space.
pub open spec fn command_args(text: Seq<char>) -> Seq<char> {
    let space = position_from(text, ' ', 0);
    if space < text.len() {
        text.subrange(space + 1, text.len() as int)
    } else {
        Seq::<char>::empty()
    }
}

/// The command word of a head: everything before its first `@`.
pub open spec fn command_word(head: Seq<char>) -> Seq<char> {
    head.subrange(0, position_from(head, '@', 0))
}

/// The bot a head names: what stands between its first `@` and its second
/// (or its end); `None` for a head without `@`.
pub open spec fn command_mention(head: Seq<char>) -> Option<Seq<char>> {
    let at = position_from(head, '@', 0);
    if at < head.len() {
        Some(head.subrange(at + 1, position_from(head, '@', at + 1)))
    } else {
        None
    }
}

/// Whether a head speaks to the bot called `bot_name`: it names no bot, or
/// names this one (ASCII letters compared without regard to case).
pub open spec fn addressed_to(head: Seq<char>, bot_name: Seq<char>) -> bool {
    match command_mention(head) {
        None => true,
        Some(name) => eq_ignoring_ascii_case(name, bot_name),
    }
}

/// The command that `text` is when sent to the bot called `bot_name`, and
/// `None` where it is none: another bot is named, the word is not a
/// command word, or a command that needs text has none.
pub open spec fn parse_command(text: Seq<char>, bot_name: Seq<char>) -> Option<CommandView> {
    let head = command_head(text);
    let word = command_word(head);
    let args = command_args(text);
    if !addressed_to(head, bot_name) {
        None
    } else if eq_ignoring_ascii_case(word, RESET_WORD@) {
        Some(CommandView::Reset)
    } else if args.len() == 0 {
        None
    } else if eq_ignoring_ascii_case(word, CHAT_WORD@) {
        Some(CommandView::Chat { text: args })
    } else if eq_ignoring_ascii_case(word, IMAGE_WORD@) {
        Some(CommandView::Image { text: args })
    } else if eq_ignoring_ascii_case(word, GROUP_WORD@) {
        Some(CommandView::Group { text: args })
    } else {
        None
    }
}

impl Command {
    /// Reads `text` as a command sent to the bot called `bot_name`.
    pub fn parse(text: &str, bot_name: &str) -> (command: Option<Command>)
        ensures
            command.deep_view() == parse_command(text@, bot_name@),
    {
        let chars = chars_of(text);
        let len = chars.len();
        let space = find_in(&chars, ' ', 0, len);
        let at = find_in(&chars, '@', 0, space);
        let ghost head = command_head(text@);
        proof {
            assert(chars@.subrange(0, len as int) =~= text@);
            position_from_bounds(text@, ' ', 0);
            assert(head =~= chars@.subrange(0, space as int));
            position_from_bounds(head, '@', 0);
            assert(command_word(head) =~= chars@.subrange(0, at as int));
        }
        if at < space {
            let end = find_in(&chars, '@', at + 1, space);
            let bot = chars_of(bot_name);
            proof {
                position_from_bounds(head, '@', at + 1);
                assert(head.subrange(at + 1, end as int) =~= chars@.subrange(
                    at + 1,
                    end as int,
                ));
            }
            if !slice_eq_ignoring_ascii_case(&chars, at + 1, end, &bot) {
                return None;
            }
        }
        assert(addressed_to(head, bot_name@));
        if slice_eq_ignoring_ascii_case(&chars, 0, at, &chars_of(RESET_WORD)) {
            return Some(Command::Reset);
        }
        if space >= len || space + 1 >= len {
            assert(command_args(text@).len() == 0);
            return None;
        }
        let args = text.substring_char(space + 1, len);
        assert(args@ == command_args(text@));
        if slice_eq_ignoring_ascii_case(&chars, 0, at, &chars_of(CHAT_WORD)) {
            Some(Command::Chat { text: args.to_owned() })
        } else if slice_eq_ignoring_ascii_case(&chars, 0, at, &chars_of(IMAGE_WORD)) {
            Some(Command::Image { text: args.to_owned() })
        } else if slice_eq_ignoring_ascii_case(&chars, 0, at, &chars_of(GROUP_WORD)) {
            Some(Command::Group { text: args.to_owned() })
        } else {
            None
        }
    }
}

} // verus!
