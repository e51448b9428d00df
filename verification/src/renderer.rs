use vstd::prelude::*;

use vstd::string::StringExecFns;

use crate::config::Config;
use crate::text::{dec_digits, repeat_char, to_dec_string};

verus! {

/// A sequence of `n` copies of one character (empty when `n` is negative).
pub open spec fn repeat_seq(c: char, n: int) -> Seq<char> {
    Seq::new(
        if n >= 0 {
            n as nat
        } else {
            0
        },
        |i: int| c,
    )
}

/// The banner at the top of every screen.
pub open spec fn logo_lines() -> Seq<Seq<char>> {
    seq![
        ""@,
        "   ██████╗ ██╗  ██╗██████╗  █████╗ ███████╗███████╗██╗   ██╗   "@,
        "   ██╔══██╗██║  ██║██╔══██╗██╔══██╗██╔════╝██╔════╝╚██╗ ██╔╝   "@,
        "   ██████╔╝███████║██████╔╝███████║███████╗█████╗   ╚████╔╝    "@,
        "   ██╔═══╝ ██╔══██║██╔══██╗██╔══██║╚════██║██╔══╝    ╚██╔╝     "@,
        "   ██║     ██║  ██║██║  ██║██║  ██║███████║███████╗   ██║      "@,
        "   ╚═╝     ╚═╝  ╚═╝╚═╝  ╚═╝╚═╝  ╚═╝╚══════╝╚══════╝   ╚═╝      "@,
        ""@,
    ]
}

/// The main menu's option list.
pub open spec fn main_menu_option_lines() -> Seq<Seq<char>> {
    seq![
        "   What do you want to do?"@,
        ""@,
        "    [Enter]  New game"@,
        "    [S]      Settings"@,
        "    [Q]      Quit"@,
        ""@,
    ]
}

/// The settings screen's option list, echoing the working configuration.
pub open spec fn settings_option_lines(c: &Config) -> Seq<Seq<char>> {
    seq![
        "   Settings"@,
        ""@,
        "    [D] Database URI: "@ + c.db_conn_string@,
        "    [P] Phrases per round: "@ + dec_digits(c.phrases_per_round as int),
        "    [S] Save"@,
        "    [B] Back to main menu"@,
        ""@,
    ]
}

/// The inner width of the prompt box: its width less the two border cells.
pub open spec fn text_width_of(w: int) -> int {
    if w >= 2 {
        w - 2
    } else {
        0
    }
}

/// How many blanks follow the text so that the box's right border lines up.
pub open spec fn pad_width(text_width: int, len: int) -> int {
    if len <= text_width {
        text_width - len
    } else {
        0
    }
}

pub open spec fn box_top_line(w: int) -> Seq<char> {
    " ┌"@ + repeat_seq('─', w) + "┐ "@
}

pub open spec fn box_bottom_line(w: int) -> Seq<char> {
    " └"@ + repeat_seq('─', w) + "┘ "@
}

/// The middle line of the prompt box: the typed text when there is any,
/// the greyed placeholder otherwise, padded out to the box width. Padding
/// counts bytes, as the terminal-width bookkeeping does throughout.
pub open spec fn box_middle_line(w: int, text: Option<&str>, placeholder: &str) -> Seq<char> {
    match text {
        Some(t) => " │ "@ + t@ + repeat_seq(
            ' ',
            pad_width(text_width_of(w), t.len() as int),
        ) + " │ "@,
        None => " │ \x1b[90m"@ + placeholder@ + "\x1b[0m"@ + repeat_seq(
            ' ',
            pad_width(text_width_of(w), placeholder.len() as int),
        ) + " │ "@,
    }
}

/// The three lines of the prompt box.
pub open spec fn input_box_view(w: int, text: Option<&str>, placeholder: &str) -> Seq<Seq<char>> {
    seq![box_top_line(w), box_middle_line(w, text, placeholder), box_bottom_line(w)]
}

/// Appends one line; the line list grows by exactly that line.
fn push_line(lines: &mut Vec<String>, s: String)
    ensures
        final(lines).deep_view() == old(lines).deep_view().push(s@),
{
    let ghost snap = s@;
    lines.push(s);
    proof {
        assert(lines.deep_view() =~~= old(lines).deep_view().push(snap));
    }
}

/// Appends one literal line.
fn push_lit(lines: &mut Vec<String>, s: &str)
    ensures
        final(lines).deep_view() == old(lines).deep_view().push(s@),
{
    push_line(lines, String::from_str(s));
}

/// Appends the banner.
fn push_logo(lines: &mut Vec<String>)
    ensures
        final(lines).deep_view() == old(lines).deep_view() + logo_lines(),
{
    push_lit(lines, "");
    push_lit(lines, "   ██████╗ ██╗  ██╗██████╗  █████╗ ███████╗███████╗██╗   ██╗   ");
    push_lit(lines, "   ██╔══██╗██║  ██║██╔══██╗██╔══██╗██╔════╝██╔════╝╚██╗ ██╔╝   ");
    push_lit(lines, "   ██████╔╝███████║██████╔╝███████║███████╗█████╗   ╚████╔╝    ");
    push_lit(lines, "   ██╔═══╝ ██╔══██║██╔══██╗██╔══██║╚════██║██╔══╝    ╚██╔╝     ");
    push_lit(lines, "   ██║     ██║  ██║██║  ██║██║  ██║███████║███████╗   ██║      ");
    push_lit(lines, "   ╚═╝     ╚═╝  ╚═╝╚═╝  ╚═╝╚═╝  ╚═╝╚══════╝╚══════╝   ╚═╝      ");
    push_lit(lines, "");
    proof {
        assert(lines.deep_view() =~~= old(lines).deep_view() + logo_lines());
    }
}

/// Computes the text of each screen. The terminal itself — clearing,
/// cursor control, the actual writes — is the caller's business; these
/// methods say exactly which lines a screen holds.
pub struct Renderer {
    pub config: Config,
}

impl Renderer {
    pub fn new(config: Config) -> (r: Renderer)
        ensures
            r.config == config,
    {
        Renderer { config }
    }

    /// The main menu screen: banner, then the option list.
    pub fn render_main_menu(&self) -> (lines: Vec<String>)
        ensures
            lines.deep_view() == logo_lines() + main_menu_option_lines(),
    {
        let mut lines: Vec<String> = Vec::new();
        push_logo(&mut lines);
        push_lit(&mut lines, "   What do you want to do?");
        push_lit(&mut lines, "");
        push_lit(&mut lines, "    [Enter]  New game");
        push_lit(&mut lines, "    [S]      Settings");
        push_lit(&mut lines, "    [Q]      Quit");
        push_lit(&mut lines, "");
        proof {
            assert(lines.deep_view() =~~= logo_lines() + main_menu_option_lines());
        }
        lines
    }

    /// The settings screen: banner, the option list over the working
    /// configuration, and — while an option is being edited, or text has
    /// been typed — the prompt box.
    pub fn render_settings_menu(
        &self,
        user_input: Option<&str>,
        placeholder_text: Option<&str>,
        config: &Config,
    ) -> (lines: Vec<String>)
        ensures
            lines.deep_view() == logo_lines() + settings_option_lines(config) + (
            match placeholder_text {
                Some(p) => input_box_view(self.config.input_box_width as int, user_input, p),
                None => match user_input {
                    Some(_) => input_box_view(
                        self.config.input_box_width as int,
                        user_input,
                        "Sorry, something went wrong...",
                    ),
                    None => Seq::<Seq<char>>::empty(),
                },
            }),
    {
        let mut lines: Vec<String> = Vec::new();
        push_logo(&mut lines);
        self.push_settings_options(&mut lines, config);
        match placeholder_text {
            Some(p) => {
                self.push_input_box(&mut lines, user_input, p);
            },
            None => {
                match user_input {
                    Some(_) => {
                        self.push_input_box(
                            &mut lines,
                            user_input,
                            "Sorry, something went wrong...",
                        );
                    },
                    None => {
                        proof {
                            assert(lines.deep_view() =~~= lines.deep_view()
                                + Seq::<Seq<char>>::empty());
                        }
                    },
                }
            },
        }
        lines
    }

    /// The guessing screen: banner, the sentence to translate, and the
    /// prompt box holding whatever has been typed so far.
    pub fn render_guessing_screen(&self, original: &str, user_input: Option<&str>) -> (lines: Vec<
        String,
    >)
        ensures
            lines.deep_view() == logo_lines() + seq!["   Sentence: "@ + original@, ""@]
                + input_box_view(
                self.config.input_box_width as int,
                user_input,
                "Enter your answer...",
            ),
    {
        let mut lines: Vec<String> = Vec::new();
        push_logo(&mut lines);
        let mut sentence = String::from_str("   Sentence: ");
        sentence.append(original);
        push_line(&mut lines, sentence);
        push_lit(&mut lines, "");
        self.push_input_box(&mut lines, user_input, "Enter your answer...");
        lines
    }

    /// The feedback screen: banner, then the verdict — and on a miss, the
    /// answer that was expected.
    pub fn render_feedback_screen(&self, is_correct: bool, correct_answer: &str) -> (lines: Vec<
        String,
    >)
        ensures
            is_correct ==> lines.deep_view() == logo_lines() + seq!["Correct!"@, ""@],
            !is_correct ==> lines.deep_view() == logo_lines() + seq![
                "Incorrect! The correct answer was:"@,
                "\t"@ + correct_answer@,
                ""@,
            ],
    {
        let mut lines: Vec<String> = Vec::new();
        push_logo(&mut lines);
        if is_correct {
            push_lit(&mut lines, "Correct!");
            push_lit(&mut lines, "");
            proof {
                assert(lines.deep_view() =~~= logo_lines() + seq!["Correct!"@, ""@]);
            }
        } else {
            push_lit(&mut lines, "Incorrect! The correct answer was:");
            let mut shown = String::from_str("\t");
            shown.append(correct_answer);
            push_line(&mut lines, shown);
            push_lit(&mut lines, "");
            proof {
                assert(lines.deep_view() =~~= logo_lines() + seq![
                    "Incorrect! The correct answer was:"@,
                    "\t"@ + correct_answer@,
                    ""@,
                ]);
            }
        }
        lines
    }

    /// The screen shown once a round's pool has emptied.
    pub fn render_round_end_screen(&self) -> (lines: Vec<String>)
        ensures
            lines.deep_view() == logo_lines() + seq![
                "Round completed! Ready for the next one?"@,
                "    [Enter]  Next game"@,
                "    [B]      Back to main menu"@,
                ""@,
            ],
    {
        let mut lines: Vec<String> = Vec::new();
        push_logo(&mut lines);
        push_lit(&mut lines, "Round completed! Ready for the next one?");
        push_lit(&mut lines, "    [Enter]  Next game");
        push_lit(&mut lines, "    [B]      Back to main menu");
        push_lit(&mut lines, "");
        proof {
            assert(lines.deep_view() =~~= logo_lines() + seq![
                "Round completed! Ready for the next one?"@,
                "    [Enter]  Next game"@,
                "    [B]      Back to main menu"@,
                ""@,
            ]);
        }
        lines
    }

    /// The farewell screen.
    pub fn render_quit_screen(&self) -> (lines: Vec<String>)
        ensures
            lines.deep_view() == logo_lines() + seq!["Goodbye!"@, ""@],
    {
        let mut lines: Vec<String> = Vec::new();
        push_logo(&mut lines);
        push_lit(&mut lines, "Goodbye!");
        push_lit(&mut lines, "");
        proof {
            assert(lines.deep_view() =~~= logo_lines() + seq!["Goodbye!"@, ""@]);
        }
        lines
    }

    /// Appends the settings option list.
    fn push_settings_options(&self, lines: &mut Vec<String>, config: &Config)
        ensures
            final(lines).deep_view() == old(lines).deep_view() + settings_option_lines(config),
    {
        push_lit(lines, "   Settings");
        push_lit(lines, "");
        let mut db_line = String::from_str("    [D] Database URI: ");
        db_line.append(config.db_conn_string.as_str());
        push_line(lines, db_line);
        let mut count_line = String::from_str("    [P] Phrases per round: ");
        let count_text = to_dec_string(config.phrases_per_round);
        count_line.append(count_text.as_str());
        push_line(lines, count_line);
        push_lit(lines, "    [S] Save");
        push_lit(lines, "    [B] Back to main menu");
        push_lit(lines, "");
        proof {
            assert(lines.deep_view() =~~= old(lines).deep_view() + settings_option_lines(config));
        }
    }

    /// Appends the three lines of the prompt box.
    fn push_input_box(&self, lines: &mut Vec<String>, text: Option<&str>, placeholder: &str)
        ensures
            final(lines).deep_view() == old(lines).deep_view() + input_box_view(
                self.config.input_box_width as int,
                text,
                placeholder,
            ),
    {
        let w = self.config.input_box_width;
        let text_width: usize = if w >= 2 {
            w - 2
        } else {
            0
        };
        let horizontal = repeat_char('─', w);
        proof {
            assert(horizontal@ =~= repeat_seq('─', w as int));
        }

        let mut top = String::from_str(" ┌");
        top.append(horizontal.as_str());
        top.append("┐ ");
        let ghost top_view = top@;
        push_line(lines, top);

        let middle = match text {
            Some(t) => {
                let len = t.len();
                let pad: usize = if len <= text_width {
                    text_width - len
                } else {
                    0
                };
                let mut line = String::from_str(" │ ");
                line.append(t);
                let blanks = repeat_char(' ', pad);
                proof {
                    assert(blanks@ =~= repeat_seq(
                        ' ',
                        pad_width(text_width_of(w as int), t.len() as int),
                    ));
                }
                line.append(blanks.as_str());
                line.append(" │ ");
                proof {
                    assert(line@ == box_middle_line(w as int, text, placeholder));
                }
                line
            },
            None => {
                let len = placeholder.len();
                let pad: usize = if len <= text_width {
                    text_width - len
                } else {
                    0
                };
                let mut line = String::from_str(" │ \x1b[90m");
                line.append(placeholder);
                line.append("\x1b[0m");
                let blanks = repeat_char(' ', pad);
                proof {
                    assert(blanks@ =~= repeat_seq(
                        ' ',
                        pad_width(text_width_of(w as int), placeholder.len() as int),
                    ));
                }
                line.append(blanks.as_str());
                line.append(" │ ");
                proof {
                    assert(line@ == box_middle_line(w as int, text, placeholder));
                }
                line
            },
        };
        let ghost middle_view = middle@;
        push_line(lines, middle);

        let mut bottom = String::from_str(" └");
        bottom.append(horizontal.as_str());
        bottom.append("┘ ");
        let ghost bottom_view = bottom@;
        push_line(lines, bottom);

        proof {
            assert(top_view == box_top_line(w as int));
            assert(middle_view == box_middle_line(w as int, text, placeholder));
            assert(bottom_view == box_bottom_line(w as int));
            assert(lines.deep_view() =~~= old(lines).deep_view() + input_box_view(
                self.config.input_box_width as int,
                text,
                placeholder,
            ));
        }
    }
}

} // verus!
