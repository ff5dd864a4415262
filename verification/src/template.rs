//! The output template: literal text and `{{name}}` tags over a closed set
//! of variables.
//!
//! A template is read from left to right. Two opening braces start a tag,
//! which runs to the first pair of closing braces after them; the characters
//! in between are the tag's name and must be exactly `login`, `account` or
//! `password`. Everything else is literal text and is copied as it stands.
//! There are no helpers, blocks, partials, comments or escapes, and a value is
//! inserted unchanged.

use vstd::prelude::*;
use crate::entry::{LoginEntry, LoginFields, Variable};
use crate::secret::Secret;
use crate::text::{chars_of, same_text, text_between};

verus! {

/// Why a template cannot be rendered. Positions count characters from the
/// start of the template; no variant holds any part of a login entry.
#[derive(Debug, PartialEq, Eq)]
pub enum TemplateError {
    /// The template has no characters.
    Empty,
    /// The tag that opens at `position` is never closed.
    UnclosedTag { position: usize },
    /// The tag that opens at `position` names something other than one of the
    /// three variables.
    UnknownVariable { position: usize, name: String },
}

/// A [`TemplateError`] as plain values.
pub enum TemplateFault {
    Empty,
    UnclosedTag { position: int },
    UnknownVariable { position: int, name: Seq<char> },
}

impl View for TemplateError {
    type V = TemplateFault;

    open spec fn view(&self) -> TemplateFault {
        match self {
            TemplateError::Empty => TemplateFault::Empty,
            TemplateError::UnclosedTag { position } => TemplateFault::UnclosedTag {
                position: *position as int,
            },
            TemplateError::UnknownVariable { position, name } => TemplateFault::UnknownVariable {
                position: *position as int,
                name: name@,
            },
        }
    }
}

impl Variable {
    /// The name by which a tag refers to the variable.
    pub open spec fn name(self) -> Seq<char> {
        match self {
            Variable::Login => "login"@,
            Variable::Account => "account"@,
            Variable::Password => "password"@,
        }
    }

    /// The variable that `name` refers to, if it is one of the three names.
    pub open spec fn named(name: Seq<char>) -> Option<Variable> {
        if name == Variable::Login.name() {
            Some(Variable::Login)
        } else if name == Variable::Account.name() {
            Some(Variable::Account)
        } else if name == Variable::Password.name() {
            Some(Variable::Password)
        } else {
            None
        }
    }

    /// Looks a tag's name up in the closed set of variables. The match is
    /// exact: no trimming, no change of case.
    pub fn from_name(name: &str) -> (variable: Option<Variable>)
        ensures
            variable == Variable::named(name@),
    {
        if same_text(name, "login") {
            Some(Variable::Login)
        } else if same_text(name, "account") {
            Some(Variable::Account)
        } else if same_text(name, "password") {
            Some(Variable::Password)
        } else {
            None
        }
    }
}

/// Whether a tag opens at index `at` of `template`.
pub open spec fn opens_tag(template: Seq<char>, at: int) -> bool {
    0 <= at && at + 1 < template.len() && template[at] == '{' && template[at + 1] == '{'
}

/// Whether a tag closes at index `at` of `template`.
pub open spec fn closes_tag(template: Seq<char>, at: int) -> bool {
    0 <= at && at + 1 < template.len() && template[at] == '}' && template[at + 1] == '}'
}

/// The number of characters between index `from` and the first pair of
/// closing braces at or after it; `None` where no such pair follows.
pub open spec fn name_length(template: Seq<char>, from: int) -> Option<nat>
    decreases template.len() - from,
{
    if from < 0 || from + 1 >= template.len() {
        None
    } else if closes_tag(template, from) {
        Some(0)
    } else {
        match name_length(template, from + 1) {
            Some(n) => Some(n + 1),
            None => None,
        }
    }
}

/// A tag's name and its closing braces lie within the template, and the
/// closing braces are where the name ends.
pub proof fn lemma_name_length_fits(template: Seq<char>, from: int)
    ensures
        match name_length(template, from) {
            Some(n) => 0 <= from && from + n + 2 <= template.len() && closes_tag(
                template,
                from + n,
            ),
            None => true,
        },
    decreases template.len() - from,
{
    if 0 <= from && from + 1 < template.len() && !closes_tag(template, from) {
        lemma_name_length_fits(template, from + 1);
    }
}

/// What the part of `template` from index `from` on renders to.
pub open spec fn expansion(template: Seq<char>, from: int, fields: LoginFields) -> Result<
    Seq<char>,
    TemplateFault,
>
    decreases template.len() - from,
    via expansion_terminates
{
    if from < 0 || from >= template.len() {
        Ok(Seq::empty())
    } else if opens_tag(template, from) {
        match name_length(template, from + 2) {
            None => Err(TemplateFault::UnclosedTag { position: from }),
            Some(n) => {
                let name = template.subrange(from + 2, from + 2 + n);
                match Variable::named(name) {
                    None => Err(TemplateFault::UnknownVariable { position: from, name }),
                    Some(variable) => match expansion(template, from + 2 + n + 2, fields) {
                        Ok(rest) => Ok(fields.value(variable) + rest),
                        Err(fault) => Err(fault),
                    },
                }
            },
        }
    } else {
        match expansion(template, from + 1, fields) {
            Ok(rest) => Ok(seq![template[from]] + rest),
            Err(fault) => Err(fault),
        }
    }
}

#[via_fn]
proof fn expansion_terminates(template: Seq<char>, from: int, fields: LoginFields) {
    lemma_name_length_fits(template, from + 2);
}

/// What `template` renders to against `fields`: the text, or the first fault
/// met from the left.
pub open spec fn rendering(template: Seq<char>, fields: LoginFields) -> Result<
    Seq<char>,
    TemplateFault,
> {
    if template.len() == 0 {
        Err(TemplateFault::Empty)
    } else {
        expansion(template, 0, fields)
    }
}

/// Whether the rendered text and error that `outcome` holds are those of `expected`.
pub open spec fn same_outcome(
    outcome: Result<Secret, TemplateError>,
    expected: Result<Seq<char>, TemplateFault>,
) -> bool {
    match expected {
        Ok(text) => outcome matches Ok(secret) && secret@ == text,
        Err(fault) => outcome matches Err(error) && error@ == fault,
    }
}

/// The index of the first pair of closing braces at or after `from`.
fn find_close(template: &Vec<char>, from: usize) -> (end: Option<usize>)
    requires
        from <= template.len(),
    ensures
        match end {
            Some(end) => from <= end && name_length(template@, from as int) == Some(
                (end - from) as nat,
            ) && closes_tag(template@, end as int),
            None => name_length(template@, from as int) is None,
        },
{
    let n = template.len();
    let mut at = from;
    while at < n && at + 1 < n
        invariant
            from <= at <= n,
            n == template.len(),
            match name_length(template@, at as int) {
                Some(k) => name_length(template@, from as int) == Some((k + (at - from)) as nat),
                None => name_length(template@, from as int) is None,
            },
        decreases n - at,
    {
        if template[at] == '}' && template[at + 1] == '}' {
            return Some(at);
        }
        at += 1;
    }
    None
}

/// Renders `template` against `entry`.
///
/// Each `{{login}}`, `{{account}}` and `{{password}}` is replaced by the
/// entry's field, unchanged; all other text is copied. The rendering fails on
/// an empty template, on a tag that is not closed and on a tag with any other
/// name, and the error then says which and where.
pub fn render(template: &str, entry: &LoginEntry) -> (outcome: Result<Secret, TemplateError>)
    ensures
        same_outcome(outcome, rendering(template@, entry@)),
{
    let chars = chars_of(template);
    let n = chars.len();
    if n == 0 {
        return Err(TemplateError::Empty);
    }
    let mut out = String::new();
    let mut at: usize = 0;
    while at < n
        invariant
            at <= n,
            n == chars.len(),
            chars@ == template@,
            match expansion(chars@, at as int, entry@) {
                Ok(rest) => expansion(chars@, 0, entry@) == Ok::<Seq<char>, TemplateFault>(
                    out@ + rest,
                ),
                Err(fault) => expansion(chars@, 0, entry@) == Err::<Seq<char>, TemplateFault>(
                    fault,
                ),
            },
        decreases n - at,
    {
        if chars[at] == '{' && at + 1 < n && chars[at + 1] == '{' {
            match find_close(&chars, at + 2) {
                None => {
                    return Err(TemplateError::UnclosedTag { position: at });
                },
                Some(end) => {
                    let name = text_between(&chars, at + 2, end);
                    match Variable::from_name(name.as_str()) {
                        None => {
                            return Err(TemplateError::UnknownVariable { position: at, name });
                        },
                        Some(variable) => {
                            let ghost before = out@;
                            let ghost value = entry@.value(variable);
                            out.append(entry.field(variable).expose());
                            proof {
                                let rest = expansion(chars@, end + 2, entry@);
                                if let Ok(tail) = rest {
                                    assert(before + (value + tail) == (before + value) + tail);
                                }
                            }
                            at = end + 2;
                        },
                    }
                },
            }
        } else {
            let ghost before = out@;
            out.push(chars[at]);
            proof {
                let rest = expansion(chars@, at + 1, entry@);
                if let Ok(tail) = rest {
                    assert(before + (seq![chars@[at as int]] + tail) == before.push(
                        chars@[at as int],
                    ) + tail);
                }
            }
            at += 1;
        }
    }
    assert(out@ + Seq::<char>::empty() == out@);
    Ok(Secret::new(out))
}

/// Text without an opening brace renders to itself from any index on.
proof fn lemma_plain_suffix(template: Seq<char>, from: int, fields: LoginFields)
    requires
        0 <= from <= template.len(),
        forall|i: int| 0 <= i < template.len() ==> template[i] != '{',
    ensures
        expansion(template, from, fields) == Ok::<Seq<char>, TemplateFault>(
            template.subrange(from, template.len() as int),
        ),
    decreases template.len() - from,
{
    if from < template.len() {
        lemma_plain_suffix(template, from + 1, fields);
        assert(seq![template[from]] + template.subrange(from + 1, template.len() as int)
            =~= template.subrange(from, template.len() as int));
    } else {
        assert(template.subrange(from, template.len() as int) =~= Seq::empty());
    }
}

/// Literal text passes through unchanged: a template that is not empty and
/// holds no opening brace renders to itself, whatever the entry.
pub proof fn lemma_literal_text_unchanged(template: Seq<char>, fields: LoginFields)
    requires
        template.len() > 0,
        forall|i: int| 0 <= i < template.len() ==> template[i] != '{',
    ensures
        rendering(template, fields) == Ok::<Seq<char>, TemplateFault>(template),
{
    lemma_plain_suffix(template, 0, fields);
    assert(template.subrange(0, template.len() as int) =~= template);
}

/// A name without a closing brace, followed by two closing braces, ends at
/// those braces.
proof fn lemma_name_ends_at_close(template: Seq<char>, start: int, length: int, from: int)
    requires
        0 <= start <= from <= start + length,
        start + length + 2 <= template.len(),
        forall|i: int| start <= i < start + length ==> template[i] != '}',
        closes_tag(template, start + length),
    ensures
        name_length(template, from) == Some((start + length - from) as nat),
    decreases start + length - from,
{
    if from < start + length {
        lemma_name_ends_at_close(template, start, length, from + 1);
    }
}

/// Literal text before a failing tag does not hide the failure.
proof fn lemma_fault_after_plain_prefix(
    template: Seq<char>,
    from: int,
    tag: int,
    fields: LoginFields,
)
    requires
        0 <= from <= tag < template.len(),
        forall|i: int| 0 <= i < tag ==> template[i] != '{',
        expansion(template, tag, fields) is Err,
    ensures
        expansion(template, from, fields) == expansion(template, tag, fields),
    decreases tag - from,
{
    if from < tag {
        lemma_fault_after_plain_prefix(template, from + 1, tag, fields);
    }
}

/// A tag that names anything but one of the three variables makes the
/// rendering fail, and the failure says where the tag is and what it names.
/// The template here is literal text without an opening brace, then the tag,
/// then anything.
pub proof fn lemma_unknown_variable_rejected(
    prefix: Seq<char>,
    name: Seq<char>,
    suffix: Seq<char>,
    fields: LoginFields,
)
    requires
        forall|i: int| 0 <= i < prefix.len() ==> prefix[i] != '{',
        forall|i: int| 0 <= i < name.len() ==> name[i] != '}',
        Variable::named(name) is None,
    ensures
        rendering(prefix + seq!['{', '{'] + name + seq!['}', '}'] + suffix, fields) == Err::<
            Seq<char>,
            TemplateFault,
        >(TemplateFault::UnknownVariable { position: prefix.len() as int, name }),
{
    let template = prefix + seq!['{', '{'] + name + seq!['}', '}'] + suffix;
    let tag = prefix.len() as int;
    assert(opens_tag(template, tag));
    assert(closes_tag(template, tag + 2 + name.len()));
    assert forall|i: int| tag + 2 <= i < tag + 2 + name.len() implies template[i] != '}' by {
        assert(template[i] == name[i - tag - 2]);
    }
    lemma_name_ends_at_close(template, tag + 2, name.len() as int, tag + 2);
    assert(template.subrange(tag + 2, tag + 2 + name.len()) =~= name);
    assert forall|i: int| 0 <= i < tag implies template[i] != '{' by {
        assert(template[i] == prefix[i]);
    }
    lemma_fault_after_plain_prefix(template, 0, tag, fields);
}

/// The part of a template from any index on fails against one entry exactly
/// where it fails against another, and with the same failure.
proof fn lemma_expansion_failure_ignores_entry(
    template: Seq<char>,
    from: int,
    first: LoginFields,
    second: LoginFields,
)
    ensures
        expansion(template, from, first) is Err <==> expansion(template, from, second) is Err,
        expansion(template, from, first) matches Err(fault) ==> expansion(template, from, second)
            == Err::<Seq<char>, TemplateFault>(fault),
    decreases template.len() - from,
{
    if 0 <= from < template.len() {
        if opens_tag(template, from) {
            lemma_name_length_fits(template, from + 2);
            if let Some(n) = name_length(template, from + 2) {
                lemma_expansion_failure_ignores_entry(template, from + 2 + n + 2, first, second);
            }
        } else {
            lemma_expansion_failure_ignores_entry(template, from + 1, first, second);
        }
    }
}

/// Whether a template can be rendered, and the failure where it cannot, do
/// not depend on the entry: a failure tells of the template alone.
pub proof fn lemma_failure_ignores_entry(
    template: Seq<char>,
    first: LoginFields,
    second: LoginFields,
)
    ensures
        rendering(template, first) is Err <==> rendering(template, second) is Err,
        rendering(template, first) matches Err(fault) ==> rendering(template, second) == Err::<
            Seq<char>,
            TemplateFault,
        >(fault),
{
    lemma_expansion_failure_ignores_entry(template, 0, first, second);
}

} // verus!
