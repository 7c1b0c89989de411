//! Prompt templates: files whose `{{name}}` placeholders are filled in
//! before a prompt is sent.

use vstd::prelude::*;
use crate::text::{chars_of, matches_at, matches_at_exec, push_char};
use crate::layout::no_occ;
use crate::config::{join_text, joined_text};

verus! {

/// `s` from position `i` on, with every occurrence of `p` replaced by `r`,
/// occurrences taken left to right without overlap (`str::replace`).
pub open spec fn replaced_from(s: Seq<char>, p: Seq<char>, r: Seq<char>, i: int) -> Seq<char>
    decreases s.len() - i,
{
    if i < 0 || i >= s.len() {
        Seq::empty()
    } else if p.len() > 0 && matches_at(s, p, i) {
        r + replaced_from(s, p, r, i + p.len())
    } else {
        seq![s[i]] + replaced_from(s, p, r, i + 1)
    }
}

/// `s` with every occurrence of `p` replaced by `r`.
pub open spec fn replaced(s: Seq<char>, p: Seq<char>, r: Seq<char>) -> Seq<char> {
    replaced_from(s, p, r, 0)
}

/// Replaces every occurrence of the non-empty `p` in `s` by `r`.
pub fn replace_text(s: &str, p: &str, r: &str) -> (out: String)
    requires
        p@.len() > 0,
    ensures
        out@ == replaced(s@, p@, r@),
{
    let v = chars_of(s);
    let pv = chars_of(p);
    let mut out = String::new();
    let mut i: usize = 0;
    while i < v.len()
        invariant
            v@ == s@,
            pv@ == p@,
            pv.len() > 0,
            i <= v.len(),
            replaced(v@, pv@, r@) == out@ + replaced_from(v@, pv@, r@, i as int),
        decreases v.len() - i,
    {
        if pv.len() <= v.len() - i && matches_at_exec(&v, &pv, i) {
            let ghost before = out@;
            out.append(r);
            assert(replaced_from(v@, pv@, r@, i as int) == r@ + replaced_from(
                v@,
                pv@,
                r@,
                i + pv.len(),
            ));
            i = i + pv.len();
            assert(out@ + replaced_from(v@, pv@, r@, i as int) =~= before + replaced_from(
                v@,
                pv@,
                r@,
                i - pv.len(),
            ));
        } else {
            let ghost before = out@;
            push_char(&mut out, v[i]);
            assert(replaced_from(v@, pv@, r@, i as int) == seq![v@[i as int]] + replaced_from(
                v@,
                pv@,
                r@,
                i + 1,
            ));
            i = i + 1;
            assert(out@ + replaced_from(v@, pv@, r@, i as int) =~= before + replaced_from(
                v@,
                pv@,
                r@,
                i - 1,
            ));
        }
    }
    assert(out@ =~= out@ + replaced_from(v@, pv@, r@, i as int));
    out
}

/// A text in which `p` does not occur is left as it is.
pub proof fn law_replace_absent(s: Seq<char>, p: Seq<char>, r: Seq<char>)
    requires
        no_occ(s, p),
    ensures
        replaced(s, p, r) == s,
{
    lemma_replace_absent_from(s, p, r, 0);
    assert(s.skip(0) =~= s);
}

proof fn lemma_replace_absent_from(s: Seq<char>, p: Seq<char>, r: Seq<char>, i: int)
    requires
        no_occ(s, p),
        0 <= i <= s.len(),
    ensures
        replaced_from(s, p, r, i) == s.skip(i),
    decreases s.len() - i,
{
    if i < s.len() {
        assert(!matches_at(s, p, i));
        lemma_replace_absent_from(s, p, r, i + 1);
        assert(s.skip(i) =~= seq![s[i]] + s.skip(i + 1));
    } else {
        assert(s.skip(i) =~= Seq::<char>::empty());
    }
}

/// The placeholder `{{key}}`.
pub open spec fn placeholder(key: Seq<char>) -> Seq<char> {
    seq!['{', '{'] + key + seq!['}', '}']
}

/// The views of the name and value pairs.
pub open spec fn pair_views(vars: Seq<(String, String)>) -> Seq<(Seq<char>, Seq<char>)> {
    vars.map_values(|kv: (String, String)| (kv.0@, kv.1@))
}

/// A template with the placeholder of each name replaced by its value, one
/// name after the other.
pub open spec fn rendered(content: Seq<char>, vars: Seq<(Seq<char>, Seq<char>)>) -> Seq<char>
    decreases vars.len(),
{
    if vars.len() == 0 {
        content
    } else {
        replaced(
            rendered(content, vars.drop_last()),
            placeholder(vars.last().0),
            vars.last().1,
        )
    }
}

/// Fills in a template.
pub fn render_template(content: &str, vars: &Vec<(String, String)>) -> (r: String)
    ensures
        r@ == rendered(content@, pair_views(vars@)),
{
    let mut out = String::from_str(content);
    let mut i: usize = 0;
    while i < vars.len()
        invariant
            i <= vars.len(),
            out@ == rendered(content@, pair_views(vars@.take(i as int))),
        decreases vars.len() - i,
    {
        let mut p = String::from_str("{{");
        p.append(vars[i].0.as_str());
        p.append("}}");
        proof {
            reveal_strlit("{{");
            reveal_strlit("}}");
        }
        assert(p@ =~= placeholder(vars@[i as int].0@));
        let next = replace_text(out.as_str(), p.as_str(), vars[i].1.as_str());
        let ghost done = pair_views(vars@.take(i + 1));
        assert(done.drop_last() =~= pair_views(vars@.take(i as int)));
        assert(done.last() == (vars@[i as int].0@, vars@[i as int].1@));
        out = next;
        i = i + 1;
    }
    assert(vars@.take(vars.len() as int) =~= vars@);
    out
}

/// Why a prompt could not be made.
#[derive(Clone, Debug)]
pub enum PromptError {
    /// No template file at this path.
    NotFound(String),
}

impl PromptError {
    /// The message shown for the error.
    pub fn message(&self) -> (r: String)
        ensures
            r@ == (match self {
                PromptError::NotFound(p) => "Prompt template not found: "@ + p@,
            }),
    {
        match self {
            PromptError::NotFound(p) => {
                let mut r = String::from_str("Prompt template not found: ");
                r.append(p.as_str());
                r
            },
        }
    }
}

/// The prompt templates in a directory.
#[derive(Clone, Debug)]
pub struct PromptEngine {
    prompts_dir: String,
}

impl PromptEngine {
    /// The directory of the templates.
    pub closed spec fn dir(&self) -> Seq<char> {
        self.prompts_dir@
    }

    /// The templates in `prompts_dir`.
    pub fn new(prompts_dir: String) -> (r: PromptEngine)
        ensures
            r.dir() == prompts_dir@,
    {
        PromptEngine { prompts_dir }
    }

    /// The directory of the templates.
    pub fn prompts_dir(&self) -> (r: &str)
        ensures
            r@ == self.dir(),
    {
        self.prompts_dir.as_str()
    }

    /// The path of the template `name`.
    pub fn template_path(&self, name: &str) -> (r: String)
        ensures
            r@ == joined_text(self.dir(), name@),
    {
        join_text(self.prompts_dir.as_str(), name)
    }

    /// The prompt from template `name`, given what its file holds (`None`
    /// where there is no such file): the template filled in, or the error
    /// that names the missing file.
    pub fn render_loaded(
        &self,
        name: &str,
        loaded: Option<String>,
        vars: &Vec<(String, String)>,
    ) -> (r: Result<String, PromptError>)
        ensures
            match loaded {
                Some(c) => r matches Ok(out) && out@ == rendered(c@, pair_views(vars@)),
                None => r matches Err(PromptError::NotFound(p)) && p@ == joined_text(
                    self.dir(),
                    name@,
                ),
            },
    {
        match loaded {
            Some(c) => Ok(render_template(c.as_str(), vars)),
            None => Err(PromptError::NotFound(self.template_path(name))),
        }
    }
}

} // verus!
