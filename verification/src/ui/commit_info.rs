//! The state of the window that shows one commit in full.

use crate::commit::{author_text, Commit};
use crate::diff::highlight::{span_views, Color, Style, StyledSpan, StyledSpanView};
use crate::diff::render::{bold, colored, plain};
use crate::text::{
    chars_of, decimal, decimal_text, line_bounds, same_text, slice_string, split_lines,
    strings_view,
};
use vstd::prelude::*;

verus! {

/// The window that shows one commit in full; its message can be scrolled.
#[derive(Debug)]
pub struct CommitInfoPopup {
    pub commit: Commit,
    /// Index of the first line of the message that is shown.
    pub scroll_position: usize,
}

impl CommitInfoPopup {
    /// Number of lines of the message part: the lines of the body, or one
    /// line that says that there is no body.
    pub open spec fn total_lines(&self) -> int {
        if self.commit.body@.len() > 0 {
            split_lines(self.commit.body@).len() as int
        } else {
            1
        }
    }

    /// A window on `commit`, scrolled to the top.
    pub fn new(commit: Commit) -> (r: Self)
        ensures
            r.commit == commit,
            r.scroll_position == 0,
    {
        CommitInfoPopup { commit, scroll_position: 0 }
    }

    /// One line up, not above the first line.
    pub fn scroll_up(&mut self)
        ensures
            final(self).scroll_position == (if old(self).scroll_position > 0 {
                old(self).scroll_position - 1
            } else {
                0
            }),
            final(self).commit == old(self).commit,
    {
        if self.scroll_position > 0 {
            self.scroll_position -= 1;
        }
    }

    /// One line down, as long as lines remain below a window of
    /// `viewport_height` lines on a text of `max_lines` lines.
    pub fn scroll_down(&mut self, max_lines: usize, viewport_height: usize)
        ensures
            final(self).scroll_position == (if old(self).scroll_position + viewport_height
                < max_lines {
                old(self).scroll_position + 1
            } else {
                old(self).scroll_position as int
            }),
            final(self).commit == old(self).commit,
    {
        if max_lines > viewport_height && self.scroll_position < max_lines - viewport_height {
            self.scroll_position += 1;
        }
    }

    /// Number of lines of the message part.
    pub fn get_total_lines(&self) -> (n: usize)
        ensures
            n == self.total_lines(),
    {
        let body = chars_of(self.commit.body.as_str());
        if body.len() > 0 {
            line_bounds(&body).len()
        } else {
            1
        }
    }
}

/// The strings joined, with `, ` between them.
pub open spec fn comma_list(items: Seq<Seq<char>>, n: int) -> Seq<char>
    decreases n,
{
    if n <= 0 {
        Seq::empty()
    } else if n == 1 {
        items[0]
    } else {
        comma_list(items, n - 1) + ", "@ + items[n - 1]
    }
}

/// A line of the commit window: a label in bold yellow and a value.
pub open spec fn labelled(label: Seq<char>, value: Seq<char>, style: Style) -> Seq<
    StyledSpanView,
> {
    seq![
        StyledSpanView { content: label, style: bold(Color::Yellow) },
        StyledSpanView { content: value, style },
    ]
}

/// The committer differs from the author.
pub open spec fn has_other_committer(commit: &Commit) -> bool {
    commit.committer_name@ != commit.author_name@ || commit.committer_email@
        != commit.author_email@
}

/// The committer date is given and differs from the author date.
pub open spec fn has_other_commit_date(commit: &Commit) -> bool {
    commit.committer_date@.len() > 0 && commit.committer_date@ != commit.author_date@
}

/// The lines that the commit window shows above the message: hash, author
/// and date; committer, and commit date, where they differ from author and
/// date; branches and tags, pull request and statistics, where known.
pub open spec fn metadata_lines(commit: &Commit) -> Seq<Seq<StyledSpanView>> {
    seq![
        labelled("Hash:      "@, commit.hash@, colored(Color::Cyan)),
        labelled(
            "Author:    "@,
            author_text(commit.author_name@, commit.author_email@),
            plain(),
        ),
        labelled("Date:      "@, commit.author_date@, plain()),
    ] + (if has_other_committer(commit) {
        seq![
            labelled(
                "Committer: "@,
                commit.committer_name@ + " <"@ + commit.committer_email@ + ">"@,
                plain(),
            ),
        ] + (if has_other_commit_date(commit) {
            seq![labelled("Commit Date:"@, commit.committer_date@, plain())]
        } else {
            Seq::empty()
        })
    } else {
        Seq::empty()
    }) + (if commit.refs@.len() > 0 {
        seq![
            labelled(
                "Refs:      "@,
                "("@ + comma_list(strings_view(commit.refs@), commit.refs@.len() as int) + ")"@,
                colored(Color::Magenta),
            ),
        ]
    } else {
        Seq::empty()
    }) + (match commit.pr_info {
        Some(info) => seq![
            labelled(
                "PR:        "@,
                "#"@ + decimal_text(info.number as nat) + " - "@ + info.title@,
                colored(Color::Green),
            ),
        ],
        None => Seq::empty(),
    }) + (match commit.stats {
        Some(stats) => seq![
            labelled(
                "Stats:     "@,
                decimal_text(stats.files_changed as nat) + " files, +"@ + decimal_text(
                    stats.insertions as nat,
                ) + " -"@ + decimal_text(stats.deletions as nat) + " lines"@,
                colored(Color::DarkGray),
            ),
        ],
        None => Seq::empty(),
    })
}

/// The views of a sequence of lines.
pub open spec fn line_span_views(lines: Seq<Vec<StyledSpan>>) -> Seq<Seq<StyledSpanView>> {
    Seq::new(lines.len(), |i: int| span_views(lines[i]@))
}

/// The lines of the message of a commit: the lines of its body, or one
/// line that says that there is no body.
pub open spec fn message_lines(commit: &Commit) -> Seq<Seq<StyledSpanView>> {
    if commit.body@.len() > 0 {
        Seq::new(
            split_lines(commit.body@).len(),
            |i: int| seq![StyledSpanView { content: split_lines(commit.body@)[i], style: plain() }],
        )
    } else {
        seq![
            seq![
                StyledSpanView {
                    content: "(No additional message content)"@,
                    style: colored(Color::DarkGray),
                },
            ],
        ]
    }
}

/// The part of `lines` that a window of `height` lines shows when it is
/// scrolled to line `start`.
pub open spec fn window_of(lines: Seq<Seq<StyledSpanView>>, start: int, height: int) -> Seq<
    Seq<StyledSpanView>,
> {
    if 0 <= start < lines.len() && height >= 0 {
        lines.subrange(
            start,
            if start + height < lines.len() {
                start + height
            } else {
                lines.len() as int
            },
        )
    } else {
        Seq::empty()
    }
}

fn label_line(label: &str, value: String, fg: Option<Color>) -> (line: Vec<StyledSpan>)
    ensures
        span_views(line@) == labelled(
            label@,
            value@,
            Style { fg, bg: None, bold: false, italic: false, underlined: false },
        ),
{
    let mut line: Vec<StyledSpan> = Vec::new();
    line.push(
        StyledSpan {
            content: label.to_owned(),
            style: Style {
                fg: Some(Color::Yellow),
                bg: None,
                bold: true,
                italic: false,
                underlined: false,
            },
        },
    );
    line.push(
        StyledSpan {
            content: value,
            style: Style { fg, bg: None, bold: false, italic: false, underlined: false },
        },
    );
    assert(span_views(line@) =~= labelled(
        label@,
        value@,
        Style { fg, bg: None, bold: false, italic: false, underlined: false },
    ));
    line
}

fn join_refs(refs: &Vec<String>) -> (text: String)
    ensures
        text@ == comma_list(strings_view(refs@), refs@.len() as int),
{
    let mut text = String::new();
    let mut i: usize = 0;
    while i < refs.len()
        invariant
            i <= refs@.len(),
            text@ == comma_list(strings_view(refs@), i as int),
        decreases refs.len() - i,
    {
        if i > 0 {
            text.append(", ");
        }
        text.append(refs[i].as_str());
        proof {
            assert(strings_view(refs@)[i as int] == refs@[i as int]@);
            if i == 0 {
                assert(text@ =~= refs@[0]@);
            }
        }
        i += 1;
    }
    text
}

impl CommitInfoPopup {
    /// The lines above the message.
    pub fn metadata(&self) -> (lines: Vec<Vec<StyledSpan>>)
        ensures
            line_span_views(lines@) == metadata_lines(&self.commit),
    {
        let commit = &self.commit;
        let mut lines: Vec<Vec<StyledSpan>> = Vec::new();
        lines.push(label_line("Hash:      ", commit.hash.clone(), Some(Color::Cyan)));
        lines.push(label_line("Author:    ", commit.author(), None));
        lines.push(label_line("Date:      ", commit.author_date.clone(), None));
        let ghost first = line_span_views(lines@);
        assert(first =~= seq![
            labelled("Hash:      "@, commit.hash@, colored(Color::Cyan)),
            labelled(
                "Author:    "@,
                author_text(commit.author_name@, commit.author_email@),
                plain(),
            ),
            labelled("Date:      "@, commit.author_date@, plain()),
        ]);
        let ghost mut second: Seq<Seq<StyledSpanView>> = Seq::empty();
        if !same_text(commit.committer_name.as_str(), commit.author_name.as_str()) || !same_text(
            commit.committer_email.as_str(),
            commit.author_email.as_str(),
        ) {
            let mut committer = commit.committer_name.clone();
            committer.append(" <");
            committer.append(commit.committer_email.as_str());
            committer.append(">");
            lines.push(label_line("Committer: ", committer, None));
            proof {
                second =
                seq![
                    labelled(
                        "Committer: "@,
                        commit.committer_name@ + " <"@ + commit.committer_email@ + ">"@,
                        plain(),
                    ),
                ];
            }
            if commit.committer_date.as_str().unicode_len() > 0 && !same_text(
                commit.committer_date.as_str(),
                commit.author_date.as_str(),
            ) {
                lines.push(label_line("Commit Date:", commit.committer_date.clone(), None));
                proof {
                    second = second.push(
                        labelled("Commit Date:"@, commit.committer_date@, plain()),
                    );
                }
            }
        }
        assert(line_span_views(lines@) =~= first + second);
        let ghost mut third: Seq<Seq<StyledSpanView>> = Seq::empty();
        if commit.refs.len() > 0 {
            let mut refs_text = "(".to_owned();
            refs_text.append(join_refs(&commit.refs).as_str());
            refs_text.append(")");
            lines.push(label_line("Refs:      ", refs_text, Some(Color::Magenta)));
            proof {
                third =
                seq![
                    labelled(
                        "Refs:      "@,
                        "("@ + comma_list(strings_view(commit.refs@), commit.refs@.len() as int)
                            + ")"@,
                        colored(Color::Magenta),
                    ),
                ];
            }
        }
        assert(line_span_views(lines@) =~= first + second + third);
        let ghost mut fourth: Seq<Seq<StyledSpanView>> = Seq::empty();
        if let Some(info) = &commit.pr_info {
            let mut text = "#".to_owned();
            text.append(decimal(info.number as u64).as_str());
            text.append(" - ");
            text.append(info.title.as_str());
            lines.push(label_line("PR:        ", text, Some(Color::Green)));
            proof {
                fourth =
                seq![
                    labelled(
                        "PR:        "@,
                        "#"@ + decimal_text(info.number as nat) + " - "@ + info.title@,
                        colored(Color::Green),
                    ),
                ];
            }
        }
        assert(line_span_views(lines@) =~= first + second + third + fourth);
        let ghost mut fifth: Seq<Seq<StyledSpanView>> = Seq::empty();
        if let Some(stats) = &commit.stats {
            let mut text = decimal(stats.files_changed as u64);
            text.append(" files, +");
            text.append(decimal(stats.insertions as u64).as_str());
            text.append(" -");
            text.append(decimal(stats.deletions as u64).as_str());
            text.append(" lines");
            lines.push(label_line("Stats:     ", text, Some(Color::DarkGray)));
            proof {
                fifth =
                seq![
                    labelled(
                        "Stats:     "@,
                        decimal_text(stats.files_changed as nat) + " files, +"@ + decimal_text(
                            stats.insertions as nat,
                        ) + " -"@ + decimal_text(stats.deletions as nat) + " lines"@,
                        colored(Color::DarkGray),
                    ),
                ];
            }
        }
        assert(line_span_views(lines@) =~= first + second + third + fourth + fifth);
        lines
    }

    /// The lines of the message that a window of `visible_height` lines
    /// shows at the scroll position.
    pub fn visible_message(&self, visible_height: usize) -> (lines: Vec<Vec<StyledSpan>>)
        ensures
            line_span_views(lines@) == window_of(
                message_lines(&self.commit),
                self.scroll_position as int,
                visible_height as int,
            ),
    {
        let ghost all = message_lines(&self.commit);
        let mut lines: Vec<Vec<StyledSpan>> = Vec::new();
        let body = chars_of(self.commit.body.as_str());
        if body.len() == 0 {
            if self.scroll_position == 0 && visible_height > 0 {
                let mut line: Vec<StyledSpan> = Vec::new();
                line.push(
                    StyledSpan {
                        content: "(No additional message content)".to_owned(),
                        style: Style {
                            fg: Some(Color::DarkGray),
                            bg: None,
                            bold: false,
                            italic: false,
                            underlined: false,
                        },
                    },
                );
                assert(span_views(line@) =~= all[0]);
                lines.push(line);
                assert(line_span_views(lines@)[0] == all[0]);
                assert(line_span_views(lines@) =~= all.subrange(0, 1));
            } else {
                assert(line_span_views(lines@) =~= window_of(
                    all,
                    self.scroll_position as int,
                    visible_height as int,
                ));
            }
            return lines;
        }
        let bounds = line_bounds(&body);
        let start = self.scroll_position;
        if start >= bounds.len() {
            assert(line_span_views(lines@) =~= Seq::<Seq<StyledSpanView>>::empty());
            return lines;
        }
        let end: usize = if visible_height < bounds.len() - start {
            start + visible_height
        } else {
            bounds.len()
        };
        let mut i: usize = start;
        while i < end
            invariant
                start <= i <= end <= bounds@.len(),
                body@ == self.commit.body@,
                body@.len() > 0,
                all == message_lines(&self.commit),
                bounds@.len() == split_lines(body@).len(),
                forall|k: int|
                    0 <= k < bounds@.len() ==> {
                        &&& (#[trigger] bounds@[k]).0 <= bounds@[k].1 <= body@.len()
                        &&& body@.subrange(bounds@[k].0 as int, bounds@[k].1 as int)
                            == split_lines(body@)[k]
                    },
                line_span_views(lines@) == all.subrange(start as int, i as int),
            decreases end - i,
        {
            let ghost before = line_span_views(lines@);
            let mut line: Vec<StyledSpan> = Vec::new();
            line.push(
                StyledSpan {
                    content: slice_string(&body, bounds[i].0, bounds[i].1),
                    style: Style {
                        fg: None,
                        bg: None,
                        bold: false,
                        italic: false,
                        underlined: false,
                    },
                },
            );
            assert(span_views(line@) =~= all[i as int]);
            lines.push(line);
            assert(line_span_views(lines@) =~= before.push(all[i as int]));
            assert(all.subrange(start as int, i + 1) =~= all.subrange(start as int, i as int).push(
                all[i as int],
            ));
            i += 1;
        }
        lines
    }
}

} // verus!
