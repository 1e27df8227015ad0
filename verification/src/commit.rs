//! A commit of the history, with what is known about it.

use crate::text::{
    chars_of, clone_strings, equals, first_index, is_white_space, last_index,
    lemma_first_index, lemma_first_index_not_negative, lemma_last_index, lemma_last_index_bounds,
    non_whitespace, rfind_char, string_of, substring, trim_bounds, trimmed,
};
use vstd::prelude::*;

verus! {

/// A commit that touched the file, or the working directory with its
/// uncommitted changes.
#[derive(Debug)]
pub struct Commit {
    pub hash: String,
    pub short_hash: String,
    pub date: String,
    pub author_name: String,
    pub author_email: String,
    pub committer_name: String,
    pub committer_email: String,
    pub author_date: String,
    pub committer_date: String,
    pub subject: String,
    pub body: String,
    /// Branches and tags, as `branch:name` and `tag:name`.
    pub refs: Vec<String>,
    pub pr_info: Option<PullRequestInfo>,
    pub stats: Option<CommitStats>,
    pub _rename_info: Option<RenameInfo>,
    /// This entry stands for the uncommitted changes.
    pub is_working_directory: bool,
}

/// The pull request that a commit came from.
#[derive(Debug)]
pub struct PullRequestInfo {
    pub number: u32,
    pub title: String,
    pub url: String,
    pub status: PRStatus,
}

/// The state of a pull request.
#[derive(Debug, Clone, Copy, PartialEq, Eq, Structural)]
pub enum PRStatus {
    Open,
    Closed,
    Merged,
    Unknown,
}

/// How much a commit changed.
#[derive(Debug, Clone, Copy, PartialEq, Eq, Structural)]
pub struct CommitStats {
    pub files_changed: u32,
    pub insertions: u32,
    pub deletions: u32,
}

/// A rename of the file in a commit.
#[derive(Debug)]
pub struct RenameInfo {
    pub _old_path: String,
    pub _new_path: String,
    /// How alike the two files are, in percent.
    pub _similarity: u8,
}

impl Clone for PullRequestInfo {
    fn clone(&self) -> (r: Self)
        ensures
            r == *self,
    {
        PullRequestInfo {
            number: self.number,
            title: self.title.clone(),
            url: self.url.clone(),
            status: self.status,
        }
    }
}

impl Clone for RenameInfo {
    fn clone(&self) -> (r: Self)
        ensures
            r == *self,
    {
        RenameInfo {
            _old_path: self._old_path.clone(),
            _new_path: self._new_path.clone(),
            _similarity: self._similarity,
        }
    }
}

/// Name and e-mail address in an author given as `Name <email>`: the
/// address stands between the last `<` and the last `>`, the name before
/// that `<`, without white space around it. An author of another form is
/// all name.
pub open spec fn author_parts(author: Seq<char>) -> (Seq<char>, Seq<char>) {
    let open = last_index(author, equals('<'));
    let close = last_index(author, equals('>'));
    if 0 <= open < close {
        (trimmed(author.take(open)), author.subrange(open + 1, close))
    } else {
        (author, Seq::empty())
    }
}

/// An author as `Name <email>`, or the name alone if there is no address.
pub open spec fn author_text(name: Seq<char>, email: Seq<char>) -> Seq<char> {
    if email.len() == 0 {
        name
    } else {
        name + " <"@ + email + ">"@
    }
}

/// Neither `<` nor `>` occurs in the text.
pub open spec fn no_angle_brackets(s: Seq<char>) -> bool {
    forall|i: int| 0 <= i < s.len() ==> (#[trigger] s[i]) != '<' && s[i] != '>'
}

/// The characters of an author with an address: the name, a space, the
/// address in angle brackets.
proof fn lemma_author_text_chars(name: Seq<char>, email: Seq<char>)
    requires
        email.len() > 0,
    ensures
        author_text(name, email) == name.push(' ').push('<') + email.push('>'),
{
    reveal_strlit(" <");
    reveal_strlit(">");
    assert(" <"@ =~= seq![' ', '<']);
    assert(">"@ =~= seq!['>']);
    assert(name + seq![' ', '<'] + email + seq!['>'] =~= name.push(' ').push('<') + email.push(
        '>',
    ));
}

/// A name without white space at its start and end is what is left of the
/// name followed by one space, once that is trimmed.
proof fn lemma_trimmed_before_space(name: Seq<char>)
    requires
        trimmed(name) == name,
    ensures
        trimmed(name.push(' ')) == name,
{
    let front = name.push(' ');
    let n = name.len() as int;
    let p = non_whitespace();
    assert(is_white_space(' '));
    assert(!p(front[n]));
    if n == 0 {
        lemma_first_index(front, p, 1);
        lemma_last_index(front, p, -1);
        assert(name =~= Seq::<char>::empty());
    } else {
        lemma_first_index_not_negative(name.drop_first(), p);
        lemma_last_index_bounds(name.drop_last(), p);
        assert(p(name[0]));
        assert(p(name[n - 1]));
        assert(front[0] == name[0] && front[n - 1] == name[n - 1]);
        lemma_first_index(front, p, 0);
        lemma_last_index(front, p, n - 1);
        assert(front.subrange(0, n) =~= name);
    }
}

/// An author that is put together from a name and an address comes apart
/// into the same name and address, if neither holds `<` or `>` and the name
/// has no white space at its start or end.
pub proof fn law_author_round_trip(name: Seq<char>, email: Seq<char>)
    requires
        no_angle_brackets(name),
        no_angle_brackets(email),
        trimmed(name) == name,
    ensures
        author_parts(author_text(name, email)) == (name, email),
{
    let text = author_text(name, email);
    let n = name.len() as int;
    let m = email.len() as int;
    if m == 0 {
        lemma_last_index(text, equals('<'), -1);
        assert(email =~= Seq::<char>::empty());
    } else {
        lemma_author_text_chars(name, email);
        assert(text.len() == n + m + 3);
        assert forall|k: int| n + 1 < k < text.len() implies !equals('<')(#[trigger] text[k]) by {
            if k < n + m + 2 {
                assert(text[k] == email[k - n - 2]);
            }
        }
        lemma_last_index(text, equals('<'), n + 1);
        lemma_last_index(text, equals('>'), n + m + 2);
        assert(text.subrange(n + 2, n + m + 2) =~= email);
        assert(text.take(n + 1) =~= name.push(' '));
        lemma_trimmed_before_space(name);
    }
}

impl Commit {
    /// Two commits with the same content.
    pub open spec fn same_as(&self, other: &Commit) -> bool {
        &&& self.hash@ == other.hash@
        &&& self.short_hash@ == other.short_hash@
        &&& self.date@ == other.date@
        &&& self.author_name@ == other.author_name@
        &&& self.author_email@ == other.author_email@
        &&& self.committer_name@ == other.committer_name@
        &&& self.committer_email@ == other.committer_email@
        &&& self.author_date@ == other.author_date@
        &&& self.committer_date@ == other.committer_date@
        &&& self.subject@ == other.subject@
        &&& self.body@ == other.body@
        &&& self.refs@.len() == other.refs@.len()
        &&& forall|i: int| 0 <= i < self.refs@.len() ==> (#[trigger] self.refs@[i])@ == other.refs@[i]@
        &&& self.pr_info == other.pr_info
        &&& self.stats == other.stats
        &&& self._rename_info == other._rename_info
        &&& self.is_working_directory == other.is_working_directory
    }

    /// The two commits differ at most in what is fetched later: branches
    /// and tags, pull request and statistics.
    pub open spec fn same_but_metadata(&self, other: &Commit) -> bool {
        &&& self.hash == other.hash
        &&& self.short_hash == other.short_hash
        &&& self.date == other.date
        &&& self.author_name == other.author_name
        &&& self.author_email == other.author_email
        &&& self.committer_name == other.committer_name
        &&& self.committer_email == other.committer_email
        &&& self.author_date == other.author_date
        &&& self.committer_date == other.committer_date
        &&& self.subject == other.subject
        &&& self.body == other.body
        &&& self._rename_info == other._rename_info
        &&& self.is_working_directory == other.is_working_directory
    }

    /// The commit is the entry that stands for the uncommitted changes, with
    /// `status_text` as its subject.
    pub open spec fn is_working_directory_entry(&self, status_text: Seq<char>) -> bool {
        &&& self.hash@ == "WORKING_DIR"@
        &&& self.short_hash@ == "WD"@
        &&& self.date@ == "Working"@
        &&& self.author_name@ == "Working"@
        &&& self.author_email@.len() == 0
        &&& self.committer_name@ == "Directory"@
        &&& self.committer_email@.len() == 0
        &&& self.author_date@ == "Working"@
        &&& self.committer_date@.len() == 0
        &&& self.subject@ == status_text
        &&& self.body@.len() == 0
        &&& self.is_plain()
        &&& self.is_working_directory
    }

    /// Nothing is known of the commit beyond its five basic facts.
    pub open spec fn is_plain(&self) -> bool {
        &&& self.refs@.len() == 0
        &&& self.pr_info is None
        &&& self.stats is None
        &&& self._rename_info is None
    }

    /// The commit is the one that the ten fields of a full log record
    /// give: hash, short hash, author date, author name, author address,
    /// committer name, committer address, committer date, subject, body.
    pub open spec fn is_enhanced_from(&self, fields: Seq<Seq<char>>) -> bool {
        &&& self.hash@ == fields[0]
        &&& self.short_hash@ == fields[1]
        &&& self.date@ == fields[2]
        &&& self.author_date@ == fields[2]
        &&& self.author_name@ == fields[3]
        &&& self.author_email@ == fields[4]
        &&& self.committer_name@ == fields[5]
        &&& self.committer_email@ == fields[6]
        &&& self.committer_date@ == fields[7]
        &&& self.subject@ == fields[8]
        &&& self.body@ == fields[9]
        &&& self.is_plain()
        &&& !self.is_working_directory
    }

    /// The commit is the one that the five fields of a short log record
    /// give: hash, short hash, date, author, subject.
    pub open spec fn is_basic_from(&self, fields: Seq<Seq<char>>) -> bool {
        &&& self.hash@ == fields[0]
        &&& self.short_hash@ == fields[1]
        &&& self.date@ == fields[2]
        &&& self.author_date@ == fields[2]
        &&& self.author_name@ == author_parts(fields[3]).0
        &&& self.author_email@ == author_parts(fields[3]).1
        &&& self.subject@ == fields[4]
        &&& self.committer_name@.len() == 0
        &&& self.committer_email@.len() == 0
        &&& self.committer_date@.len() == 0
        &&& self.body@.len() == 0
        &&& self.is_plain()
        &&& !self.is_working_directory
    }

    /// A commit from hash, short hash, date, author and subject. The author
    /// is taken apart into name and address; the date serves as author
    /// date.
    pub fn new(hash: String, short_hash: String, date: String, author: String, subject: String) -> (r:
        Self)
        ensures
            r.hash@ == hash@,
            r.short_hash@ == short_hash@,
            r.date@ == date@,
            r.author_date@ == date@,
            r.author_name@ == author_parts(author@).0,
            r.author_email@ == author_parts(author@).1,
            r.subject@ == subject@,
            r.committer_name@.len() == 0,
            r.committer_email@.len() == 0,
            r.committer_date@.len() == 0,
            r.body@.len() == 0,
            r.is_plain(),
            !r.is_working_directory,
    {
        let (author_name, author_email) = Self::parse_author(author.as_str());
        Commit {
            hash,
            short_hash,
            date: date.clone(),
            author_name,
            author_email,
            committer_name: String::new(),
            committer_email: String::new(),
            author_date: date,
            committer_date: String::new(),
            subject,
            body: String::new(),
            refs: Vec::new(),
            pr_info: None,
            stats: None,
            _rename_info: None,
            is_working_directory: false,
        }
    }

    /// A commit from all the facts that the log gives. The author date
    /// serves as date.
    pub fn new_enhanced(
        hash: String,
        short_hash: String,
        author_name: String,
        author_email: String,
        author_date: String,
        committer_name: String,
        committer_email: String,
        committer_date: String,
        subject: String,
        body: String,
    ) -> (r: Self)
        ensures
            r.hash@ == hash@,
            r.short_hash@ == short_hash@,
            r.date@ == author_date@,
            r.author_name@ == author_name@,
            r.author_email@ == author_email@,
            r.committer_name@ == committer_name@,
            r.committer_email@ == committer_email@,
            r.author_date@ == author_date@,
            r.committer_date@ == committer_date@,
            r.subject@ == subject@,
            r.body@ == body@,
            r.is_plain(),
            !r.is_working_directory,
    {
        Commit {
            hash,
            short_hash,
            date: author_date.clone(),
            author_name,
            author_email,
            committer_name,
            committer_email,
            author_date,
            committer_date,
            subject,
            body,
            refs: Vec::new(),
            pr_info: None,
            stats: None,
            _rename_info: None,
            is_working_directory: false,
        }
    }

    /// The entry that stands for the uncommitted changes; `status_text`
    /// says what kind of changes there are.
    pub fn new_working_directory(status_text: String) -> (r: Self)
        ensures
            r.is_working_directory_entry(status_text@),
    {
        Commit {
            hash: "WORKING_DIR".to_owned(),
            short_hash: "WD".to_owned(),
            date: "Working".to_owned(),
            author_name: "Working".to_owned(),
            author_email: String::new(),
            committer_name: "Directory".to_owned(),
            committer_email: String::new(),
            author_date: "Working".to_owned(),
            committer_date: String::new(),
            subject: status_text,
            body: String::new(),
            refs: Vec::new(),
            pr_info: None,
            stats: None,
            _rename_info: None,
            is_working_directory: true,
        }
    }

    /// Takes an author of the form `Name <email>` apart.
    pub fn parse_author(author: &str) -> (r: (String, String))
        ensures
            r.0@ == author_parts(author@).0,
            r.1@ == author_parts(author@).1,
    {
        let text = chars_of(author);
        let n = text.len();
        assert(text@.subrange(0, n as int) =~= text@);
        if let Some(email_start) = rfind_char(&text, 0, n, '<') {
            if let Some(email_end) = rfind_char(&text, 0, n, '>') {
                if email_start < email_end {
                    let (a, b) = trim_bounds(&text, 0, email_start);
                    assert(text@.subrange(0, email_start as int) =~= text@.take(email_start as int));
                    let name = substring(&text, a, b);
                    assert(name@ =~= text@.subrange(a as int, b as int));
                    let email = substring(&text, email_start + 1, email_end);
                    assert(email@ =~= text@.subrange(email_start + 1, email_end as int));
                    return (name, email);
                }
            }
        }
        (string_of(&text), String::new())
    }

    /// The author as `Name <email>`, or the name alone if there is no
    /// address.
    pub fn author(&self) -> (r: String)
        ensures
            r@ == author_text(self.author_name@, self.author_email@),
    {
        if self.author_email.as_str().unicode_len() == 0 {
            self.author_name.clone()
        } else {
            let mut r = self.author_name.clone();
            r.append(" <");
            r.append(self.author_email.as_str());
            r.append(">");
            r
        }
    }
}

impl Clone for Commit {
    fn clone(&self) -> (r: Self)
        ensures
            r.same_as(self),
    {
        Commit {
            hash: self.hash.clone(),
            short_hash: self.short_hash.clone(),
            date: self.date.clone(),
            author_name: self.author_name.clone(),
            author_email: self.author_email.clone(),
            committer_name: self.committer_name.clone(),
            committer_email: self.committer_email.clone(),
            author_date: self.author_date.clone(),
            committer_date: self.committer_date.clone(),
            subject: self.subject.clone(),
            body: self.body.clone(),
            refs: clone_strings(&self.refs),
            pr_info: match &self.pr_info {
                Some(info) => Some(info.clone()),
                None => None,
            },
            stats: self.stats,
            _rename_info: match &self._rename_info {
                Some(info) => Some(info.clone()),
                None => None,
            },
            is_working_directory: self.is_working_directory,
        }
    }
}

} // verus!
