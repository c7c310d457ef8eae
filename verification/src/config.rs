//! The persistent settings: template, output format, and optional title and
//! author overrides. Reading and writing the settings file is done by the
//! program; this module holds the values and the rules for changing them.
use vstd::prelude::*;
use crate::text::str_eq;
use crate::transformer::opt_view;

verus! {

/// The settings of the program.
pub struct Config {
    pub template: String,
    pub format: String,
    pub title: Option<String>,
    pub author: Option<String>,
    pub ocr: bool,
}

/// Template, format, title, author and OCR flag of a configuration.
pub open spec fn config_view(c: Config) -> (
    Seq<char>,
    Seq<char>,
    Option<Seq<char>>,
    Option<Seq<char>>,
    bool,
) {
    (c.template@, c.format@, opt_view(c.title), opt_view(c.author), c.ocr)
}

/// The settings used when none are saved.
pub open spec fn default_config_view() -> (
    Seq<char>,
    Seq<char>,
    Option<Seq<char>>,
    Option<Seq<char>>,
    bool,
) {
    ("default"@, "tex"@, None, None, false)
}

impl Default for Config {
    fn default() -> (r: Self)
        ensures
            config_view(r) == default_config_view(),
    {
        Config {
            template: "default".to_owned(),
            format: "tex".to_owned(),
            title: None,
            author: None,
            ocr: false,
        }
    }
}

fn clone_opt(o: &Option<String>) -> (r: Option<String>)
    ensures
        opt_view(r) == opt_view(*o),
{
    match o {
        Some(s) => Some(s.clone()),
        None => None,
    }
}

/// The settings `c` with the command-line overrides applied: each override
/// that is given replaces the setting, the others are kept.
pub open spec fn merged_view(
    c: (Seq<char>, Seq<char>, Option<Seq<char>>, Option<Seq<char>>, bool),
    template: Option<Seq<char>>,
    title: Option<Seq<char>>,
    author: Option<Seq<char>>,
) -> (Seq<char>, Seq<char>, Option<Seq<char>>, Option<Seq<char>>, bool) {
    (
        match template {
            Some(t) => t,
            None => c.0,
        },
        c.1,
        match title {
            Some(t) => Some(t),
            None => c.2,
        },
        match author {
            Some(a) => Some(a),
            None => c.3,
        },
        c.4,
    )
}

/// The effect of setting `key` to `value`, for the keys that can be set.
pub open spec fn set_view(
    c: (Seq<char>, Seq<char>, Option<Seq<char>>, Option<Seq<char>>, bool),
    key: Seq<char>,
    value: Seq<char>,
) -> (Seq<char>, Seq<char>, Option<Seq<char>>, Option<Seq<char>>, bool) {
    if key == "template"@ {
        (value, c.1, c.2, c.3, c.4)
    } else if key == "format"@ {
        (c.0, value, c.2, c.3, c.4)
    } else if key == "title"@ {
        (c.0, c.1, Some(value), c.3, c.4)
    } else if key == "author"@ {
        (c.0, c.1, c.2, Some(value), c.4)
    } else {
        c
    }
}

/// The keys that `set_value` knows.
pub open spec fn is_settable(key: Seq<char>) -> bool {
    key == "template"@ || key == "format"@ || key == "title"@ || key == "author"@
}

impl Config {
    /// A copy of these settings with the given command-line overrides.
    pub fn merge_with_cli(
        &self,
        template: Option<String>,
        title: Option<String>,
        author: Option<String>,
    ) -> (r: Config)
        ensures
            config_view(r) == merged_view(
                config_view(*self),
                opt_view(template),
                opt_view(title),
                opt_view(author),
            ),
    {
        let mut c = Config {
            template: self.template.clone(),
            format: self.format.clone(),
            title: clone_opt(&self.title),
            author: clone_opt(&self.author),
            ocr: self.ocr,
        };
        if let Some(t) = template {
            c.template = t;
        }
        if let Some(t) = title {
            c.title = Some(t);
        }
        if let Some(a) = author {
            c.author = Some(a);
        }
        c
    }

    /// Sets the setting named `key` to `value`; returns whether `key` names
    /// a setting (if not, nothing changes).
    pub fn set_value(&mut self, key: &str, value: &str) -> (known: bool)
        ensures
            known == is_settable(key@),
            config_view(*final(self)) == set_view(config_view(*old(self)), key@, value@),
    {
        if str_eq(key, "template") {
            self.template = value.to_owned();
            true
        } else if str_eq(key, "format") {
            self.format = value.to_owned();
            true
        } else if str_eq(key, "title") {
            self.title = Some(value.to_owned());
            true
        } else if str_eq(key, "author") {
            self.author = Some(value.to_owned());
            true
        } else {
            false
        }
    }
}

/// Merging with no overrides changes nothing.
pub proof fn law_merge_without_overrides(
    c: (Seq<char>, Seq<char>, Option<Seq<char>>, Option<Seq<char>>, bool),
)
    ensures
        merged_view(c, None, None, None) == c,
{
}

/// Applying the same overrides twice is the same as applying them once.
pub proof fn law_merge_idempotent(
    c: (Seq<char>, Seq<char>, Option<Seq<char>>, Option<Seq<char>>, bool),
    template: Option<Seq<char>>,
    title: Option<Seq<char>>,
    author: Option<Seq<char>>,
)
    ensures
        merged_view(merged_view(c, template, title, author), template, title, author)
            == merged_view(c, template, title, author),
{
}

/// An override that is given always wins over the saved setting, and the
/// format and OCR flag are never overridden.
pub proof fn law_override_wins(
    c: (Seq<char>, Seq<char>, Option<Seq<char>>, Option<Seq<char>>, bool),
    template: Seq<char>,
    title: Seq<char>,
    author: Seq<char>,
)
    ensures
        merged_view(c, Some(template), Some(title), Some(author)) == (
            template,
            c.1,
            Some(title),
            Some(author),
            c.4,
        ),
{
}

/// Setting a key and then reading it gives the value set; setting an
/// unknown key changes nothing.
pub proof fn law_set_then_read(
    c: (Seq<char>, Seq<char>, Option<Seq<char>>, Option<Seq<char>>, bool),
    key: Seq<char>,
    value: Seq<char>,
)
    ensures
        key == "template"@ ==> set_view(c, key, value).0 == value,
        key == "format"@ ==> set_view(c, key, value).1 == value,
        key == "title"@ ==> set_view(c, key, value).2 == Some(value),
        key == "author"@ ==> set_view(c, key, value).3 == Some(value),
        !is_settable(key) ==> set_view(c, key, value) == c,
{
    reveal_strlit("template");
    reveal_strlit("format");
    reveal_strlit("title");
    reveal_strlit("author");
    assert("format"@[0] != "template"@[0]);
    assert("title"@[1] != "template"@[1]);
    assert("title"@[0] != "format"@[0]);
    assert("author"@[0] != "template"@[0]);
    assert("author"@[0] != "format"@[0]);
    assert("author"@[0] != "title"@[0]);
}

} // verus!
