//! The JSON text of a slash command, in the shape that Discord takes when a command is registered:
//! every option carries its `type` code, and `default`, `required`, `choices` and `options`
//! appear only when they are set or not empty.

use vstd::prelude::*;
use crate::text::{digit_char, decimal, signed_decimal, join_seq, push_char, u64_to_string, i64_to_string};
use crate::interaction::{
    Command, CommandView, TopLevelOption, SubCommand, SubCommandGroup, DataOption, CommandDataOption,
    CommandChoice, ApplicationCommandOptionType, option_type_code,
};
use crate::ids::{UserId, ChannelId, RoleId};

verus! {

/// The lower-case hexadecimal digit of `d`, for `d < 16`.
pub open spec fn hex_digit(d: nat) -> char {
    if d < 10 { digit_char(d) } else if d == 10 { 'a' } else if d == 11 { 'b' } else if d == 12 { 'c' }
    else if d == 13 { 'd' } else if d == 14 { 'e' } else { 'f' }
}

/// One character as it is written inside a JSON string.
pub open spec fn json_char(c: char) -> Seq<char> {
    if c == '"' {
        seq!['\\', '"']
    } else if c == '\\' {
        seq!['\\', '\\']
    } else if c == '\n' {
        seq!['\\', 'n']
    } else if c == '\r' {
        seq!['\\', 'r']
    } else if c == '\t' {
        seq!['\\', 't']
    } else if (c as nat) < 32 {
        seq!['\\', 'u', '0', '0', hex_digit((c as nat) / 16), hex_digit((c as nat) % 16)]
    } else {
        seq![c]
    }
}

/// The characters of `s`, each escaped as `json_char` writes it.
pub open spec fn json_chars(s: Seq<char>) -> Seq<char>
    decreases s.len(),
{
    if s.len() == 0 { Seq::empty() } else { json_chars(s.drop_last()) + json_char(s.last()) }
}

/// `s` as a JSON string literal.
pub open spec fn json_string(s: Seq<char>) -> Seq<char> {
    seq!['"'] + json_chars(s) + seq!['"']
}

/// A JSON array of the given values.
pub open spec fn json_array(items: Seq<Seq<char>>) -> Seq<char> {
    seq!['['] + join_seq(items, seq![',']) + seq![']']
}

/// The fields that every option has: its type code, name and description, then `default` and
/// `required` where they are set.
pub open spec fn option_head(kind: ApplicationCommandOptionType, name: Seq<char>, description: Seq<char>,
    default: bool, required: bool) -> Seq<char>
{
    "{\"type\":"@ + decimal(option_type_code(kind) as nat)
        + ",\"name\":"@ + json_string(name)
        + ",\"description\":"@ + json_string(description)
        + (if default { ",\"default\":true"@ } else { Seq::empty() })
        + (if required { ",\"required\":true"@ } else { Seq::empty() })
}

/// A field holding a list, left out when the list is empty.
pub open spec fn list_field(key: Seq<char>, items: Seq<Seq<char>>) -> Seq<char> {
    if items.len() > 0 { key + json_array(items) } else { Seq::empty() }
}

/// A value that a parameter's choice can have, with its JSON text.
pub trait ChoiceValue {
    /// The JSON text of the value.
    spec fn value_json(&self) -> Seq<char>;

    /// Appends the JSON text of the value.
    fn write_value_json(&self, out: &mut String)
        ensures
            final(out)@ == old(out)@ + self.value_json(),
    ;
}

impl ChoiceValue for &'static str {
    open spec fn value_json(&self) -> Seq<char> {
        json_string((*self)@)
    }

    fn write_value_json(&self, out: &mut String) {
        write_json_string(out, *self);
    }
}

impl ChoiceValue for i64 {
    open spec fn value_json(&self) -> Seq<char> {
        signed_decimal(*self as int)
    }

    fn write_value_json(&self, out: &mut String) {
        let digits = i64_to_string(*self);
        out.append(digits.as_str());
    }
}

impl ChoiceValue for bool {
    open spec fn value_json(&self) -> Seq<char> {
        if *self { "true"@ } else { "false"@ }
    }

    fn write_value_json(&self, out: &mut String) {
        if *self {
            out.append("true");
        } else {
            out.append("false");
        }
    }
}

impl ChoiceValue for UserId {
    open spec fn value_json(&self) -> Seq<char> {
        json_string(decimal(self.0 as nat))
    }

    fn write_value_json(&self, out: &mut String) {
        let digits = u64_to_string(self.0);
        write_json_string(out, digits.as_str());
    }
}

impl ChoiceValue for ChannelId {
    open spec fn value_json(&self) -> Seq<char> {
        json_string(decimal(self.0 as nat))
    }

    fn write_value_json(&self, out: &mut String) {
        let digits = u64_to_string(self.0);
        write_json_string(out, digits.as_str());
    }
}

impl ChoiceValue for RoleId {
    open spec fn value_json(&self) -> Seq<char> {
        json_string(decimal(self.0 as nat))
    }

    fn write_value_json(&self, out: &mut String) {
        let digits = u64_to_string(self.0);
        write_json_string(out, digits.as_str());
    }
}

/// A choice as `{"name": .., "value": ..}`.
pub open spec fn choice_json<T: ChoiceValue>(c: CommandChoice<T>) -> Seq<char> {
    "{\"name\":"@ + json_string(c.name_view()) + ",\"value\":"@ + c.value_view().value_json() + "}"@
}

/// A parameter of the given type.
pub open spec fn parameter_json<T: ChoiceValue>(kind: ApplicationCommandOptionType, o: CommandDataOption<T>) -> Seq<char> {
    option_head(kind, o.name_view(), o.description_view(), o.default_flag(), o.required_flag())
        + list_field(",\"choices\":"@, o.choices_view().map_values(|c: CommandChoice<T>| choice_json(c)))
        + "}"@
}

/// A parameter, typed by its variant.
pub open spec fn data_option_json(o: DataOption) -> Seq<char> {
    match o {
        DataOption::String(p) => parameter_json(ApplicationCommandOptionType::String, p),
        DataOption::Integer(p) => parameter_json(ApplicationCommandOptionType::Integer, p),
        DataOption::Boolean(p) => parameter_json(ApplicationCommandOptionType::Boolean, p),
        DataOption::User(p) => parameter_json(ApplicationCommandOptionType::User, p),
        DataOption::Channel(p) => parameter_json(ApplicationCommandOptionType::Channel, p),
        DataOption::Role(p) => parameter_json(ApplicationCommandOptionType::Role, p),
    }
}

/// The JSON texts of a list of parameters.
pub open spec fn data_options_json(options: Seq<DataOption>) -> Seq<Seq<char>> {
    options.map_values(|o: DataOption| data_option_json(o))
}

/// A subcommand, with its parameters.
pub open spec fn sub_command_json(s: SubCommand) -> Seq<char> {
    option_head(ApplicationCommandOptionType::SubCommand, s.name@, s.description@, false, false)
        + list_field(",\"options\":"@, data_options_json(s.options@))
        + "}"@
}

/// The JSON texts of a list of subcommands.
pub open spec fn sub_commands_json(subs: Seq<SubCommand>) -> Seq<Seq<char>> {
    subs.map_values(|s: SubCommand| sub_command_json(s))
}

/// A group of subcommands.
pub open spec fn group_json(g: SubCommandGroup) -> Seq<char> {
    option_head(ApplicationCommandOptionType::SubCommandGroup, g.name@, g.description@, false, false)
        + list_field(",\"options\":"@, sub_commands_json(g.sub_commands@))
        + "}"@
}

/// The JSON texts of a list of groups.
pub open spec fn groups_json(groups: Seq<SubCommandGroup>) -> Seq<Seq<char>> {
    groups.map_values(|g: SubCommandGroup| group_json(g))
}

/// The `options` array of a command.
pub open spec fn top_level_json(t: TopLevelOption) -> Seq<char> {
    match t {
        TopLevelOption::Commands(subs) => json_array(sub_commands_json(subs@)),
        TopLevelOption::Groups(groups) => json_array(groups_json(groups@)),
        TopLevelOption::Data(options) => json_array(data_options_json(options@)),
        TopLevelOption::Empty => json_array(Seq::empty()),
    }
}

/// A command as it is registered: its name, its description and its options.
pub open spec fn command_json(c: CommandView) -> Seq<char> {
    "{\"name\":"@ + json_string(c.name) + ",\"description\":"@ + json_string(c.description)
        + ",\"options\":"@ + top_level_json(c.options) + "}"@
}

proof fn lemma_join_push(parts: Seq<Seq<char>>, x: Seq<char>, sep: Seq<char>)
    ensures
        join_seq(parts.push(x), sep) == if parts.len() == 0 { x } else { join_seq(parts, sep) + sep + x },
{
    assert(parts.push(x).drop_last() =~= parts);
    if parts.len() == 0 {
        assert(parts.push(x)[0] == x);
    }
}

fn hex_char(d: u32) -> (c: char)
    requires
        d < 16,
    ensures
        c == hex_digit(d as nat),
{
    if d == 0 { '0' } else if d == 1 { '1' } else if d == 2 { '2' } else if d == 3 { '3' }
    else if d == 4 { '4' } else if d == 5 { '5' } else if d == 6 { '6' } else if d == 7 { '7' }
    else if d == 8 { '8' } else if d == 9 { '9' } else if d == 10 { 'a' } else if d == 11 { 'b' }
    else if d == 12 { 'c' } else if d == 13 { 'd' } else if d == 14 { 'e' } else { 'f' }
}

fn push_json_char(out: &mut String, c: char)
    ensures
        final(out)@ == old(out)@ + json_char(c),
{
    let ghost start = out@;
    if c == '"' {
        push_char(out, '\\');
        push_char(out, '"');
    } else if c == '\\' {
        push_char(out, '\\');
        push_char(out, '\\');
    } else if c == '\n' {
        push_char(out, '\\');
        push_char(out, 'n');
    } else if c == '\r' {
        push_char(out, '\\');
        push_char(out, 'r');
    } else if c == '\t' {
        push_char(out, '\\');
        push_char(out, 't');
    } else if (c as u32) < 32 {
        let code = c as u32;
        push_char(out, '\\');
        push_char(out, 'u');
        push_char(out, '0');
        push_char(out, '0');
        push_char(out, hex_char(code / 16));
        push_char(out, hex_char(code % 16));
    } else {
        push_char(out, c);
    }
    assert(out@ =~= start + json_char(c));
}

/// Appends `s` as a JSON string literal.
pub fn write_json_string(out: &mut String, s: &str)
    ensures
        final(out)@ == old(out)@ + json_string(s@),
{
    let ghost start = out@;
    push_char(out, '"');
    let len = s.unicode_len();
    for i in 0..len
        invariant
            len == s@.len(),
            out@ == start + seq!['"'] + json_chars(s@.take(i as int)),
    {
        let c = s.get_char(i);
        assert(s@.take(i + 1).drop_last() =~= s@.take(i as int));
        push_json_char(out, c);
    }
    assert(s@.take(len as int) =~= s@);
    push_char(out, '"');
    assert(out@ =~= start + json_string(s@));
}

fn write_option_head(out: &mut String, kind: ApplicationCommandOptionType, name: &str, description: &str,
    default: bool, required: bool)
    ensures
        final(out)@ == old(out)@ + option_head(kind, name@, description@, default, required),
{
    let ghost start = out@;
    out.append("{\"type\":");
    let code = u64_to_string(kind.code() as u64);
    out.append(code.as_str());
    out.append(",\"name\":");
    write_json_string(out, name);
    out.append(",\"description\":");
    write_json_string(out, description);
    if default {
        out.append(",\"default\":true");
    }
    if required {
        out.append(",\"required\":true");
    }
    assert(out@ =~= start + option_head(kind, name@, description@, default, required));
}

#[verifier::spinoff_prover]
#[verifier::rlimit(40)]
fn write_choices<T: ChoiceValue>(out: &mut String, choices: &Vec<CommandChoice<T>>)
    ensures
        final(out)@ == old(out)@ + list_field(",\"choices\":"@,
            choices@.map_values(|c: CommandChoice<T>| choice_json(c))),
{
    let ghost start = out@;
    let ghost texts = choices@.map_values(|c: CommandChoice<T>| choice_json(c));
    if choices.len() == 0 {
        assert(out@ =~= start + list_field(",\"choices\":"@, texts));
        return;
    }
    out.append(",\"choices\":");
    push_char(out, '[');
    let ghost head = out@;
    for i in 0..choices.len()
        invariant
            head == start + ",\"choices\":"@ + seq!['['],
            texts == choices@.map_values(|c: CommandChoice<T>| choice_json(c)),
            out@ == head + join_seq(texts.take(i as int), seq![',']),
    {
        let ghost before = out@;
        proof {
            assert(texts.take(i + 1) =~= texts.take(i as int).push(texts[i as int]));
            lemma_join_push(texts.take(i as int), texts[i as int], seq![',']);
        }
        if i > 0 {
            push_char(out, ',');
        }
        let c = &choices[i];
        out.append("{\"name\":");
        write_json_string(out, c.name());
        out.append(",\"value\":");
        c.value().write_value_json(out);
        out.append("}");
        assert(out@ =~= head + join_seq(texts.take(i + 1), seq![',']));
    }
    assert(texts.take(choices.len() as int) =~= texts);
    push_char(out, ']');
    assert(out@ =~= start + list_field(",\"choices\":"@, texts));
}

fn write_parameter<T: ChoiceValue>(out: &mut String, kind: ApplicationCommandOptionType, o: &CommandDataOption<T>)
    ensures
        final(out)@ == old(out)@ + parameter_json(kind, *o),
{
    let ghost start = out@;
    write_option_head(out, kind, o.name(), o.description(), o.is_default(), o.is_required());
    write_choices(out, o.choice_list());
    out.append("}");
    assert(out@ =~= start + parameter_json(kind, *o));
}

/// Appends the JSON text of a parameter.
#[verifier::spinoff_prover]
#[verifier::rlimit(40)]
pub fn write_data_option(out: &mut String, o: &DataOption)
    ensures
        final(out)@ == old(out)@ + data_option_json(*o),
{
    match o {
        DataOption::String(p) => write_parameter(out, ApplicationCommandOptionType::String, p),
        DataOption::Integer(p) => write_parameter(out, ApplicationCommandOptionType::Integer, p),
        DataOption::Boolean(p) => write_parameter(out, ApplicationCommandOptionType::Boolean, p),
        DataOption::User(p) => write_parameter(out, ApplicationCommandOptionType::User, p),
        DataOption::Channel(p) => write_parameter(out, ApplicationCommandOptionType::Channel, p),
        DataOption::Role(p) => write_parameter(out, ApplicationCommandOptionType::Role, p),
    }
}

/// Appends the JSON texts of the parameters, with commas between them.
#[verifier::spinoff_prover]
#[verifier::rlimit(40)]
fn write_data_options(out: &mut String, options: &Vec<DataOption>)
    ensures
        final(out)@ == old(out)@ + join_seq(data_options_json(options@), seq![',']),
{
    let ghost start = out@;
    let ghost texts = data_options_json(options@);
    for i in 0..options.len()
        invariant
            texts == data_options_json(options@),
            out@ == start + join_seq(texts.take(i as int), seq![',']),
    {
        proof {
            assert(texts.take(i + 1) =~= texts.take(i as int).push(texts[i as int]));
            lemma_join_push(texts.take(i as int), texts[i as int], seq![',']);
        }
        if i > 0 {
            push_char(out, ',');
        }
        write_data_option(out, &options[i]);
        assert(out@ =~= start + join_seq(texts.take(i + 1), seq![',']));
    }
    assert(texts.take(options.len() as int) =~= texts);
}

/// Appends the JSON text of a subcommand.
#[verifier::spinoff_prover]
#[verifier::rlimit(40)]
pub fn write_sub_command(out: &mut String, s: &SubCommand)
    ensures
        final(out)@ == old(out)@ + sub_command_json(*s),
{
    let ghost start = out@;
    write_option_head(out, ApplicationCommandOptionType::SubCommand, s.name, s.description, false, false);
    if s.options.len() > 0 {
        out.append(",\"options\":");
        push_char(out, '[');
        write_data_options(out, &s.options);
        push_char(out, ']');
    }
    out.append("}");
    assert(out@ =~= start + sub_command_json(*s));
}

#[verifier::spinoff_prover]
#[verifier::rlimit(40)]
fn write_sub_commands(out: &mut String, subs: &Vec<SubCommand>)
    ensures
        final(out)@ == old(out)@ + join_seq(sub_commands_json(subs@), seq![',']),
{
    let ghost start = out@;
    let ghost texts = sub_commands_json(subs@);
    for i in 0..subs.len()
        invariant
            texts == sub_commands_json(subs@),
            out@ == start + join_seq(texts.take(i as int), seq![',']),
    {
        proof {
            assert(texts.take(i + 1) =~= texts.take(i as int).push(texts[i as int]));
            lemma_join_push(texts.take(i as int), texts[i as int], seq![',']);
        }
        if i > 0 {
            push_char(out, ',');
        }
        write_sub_command(out, &subs[i]);
        assert(out@ =~= start + join_seq(texts.take(i + 1), seq![',']));
    }
    assert(texts.take(subs.len() as int) =~= texts);
}

/// Appends the JSON text of a group of subcommands.
#[verifier::spinoff_prover]
#[verifier::rlimit(40)]
pub fn write_group(out: &mut String, g: &SubCommandGroup)
    ensures
        final(out)@ == old(out)@ + group_json(*g),
{
    let ghost start = out@;
    write_option_head(out, ApplicationCommandOptionType::SubCommandGroup, g.name, g.description, false, false);
    if g.sub_commands.len() > 0 {
        out.append(",\"options\":");
        push_char(out, '[');
        write_sub_commands(out, &g.sub_commands);
        push_char(out, ']');
    }
    out.append("}");
    assert(out@ =~= start + group_json(*g));
}

#[verifier::spinoff_prover]
#[verifier::rlimit(40)]
fn write_groups(out: &mut String, groups: &Vec<SubCommandGroup>)
    ensures
        final(out)@ == old(out)@ + join_seq(groups_json(groups@), seq![',']),
{
    let ghost start = out@;
    let ghost texts = groups_json(groups@);
    for i in 0..groups.len()
        invariant
            texts == groups_json(groups@),
            out@ == start + join_seq(texts.take(i as int), seq![',']),
    {
        proof {
            assert(texts.take(i + 1) =~= texts.take(i as int).push(texts[i as int]));
            lemma_join_push(texts.take(i as int), texts[i as int], seq![',']);
        }
        if i > 0 {
            push_char(out, ',');
        }
        write_group(out, &groups[i]);
        assert(out@ =~= start + join_seq(texts.take(i + 1), seq![',']));
    }
    assert(texts.take(groups.len() as int) =~= texts);
}

/// Appends the `options` array of a command.
#[verifier::spinoff_prover]
#[verifier::rlimit(40)]
pub fn write_top_level(out: &mut String, t: &TopLevelOption)
    ensures
        final(out)@ == old(out)@ + top_level_json(*t),
{
    let ghost start = out@;
    push_char(out, '[');
    match t {
        TopLevelOption::Commands(subs) => write_sub_commands(out, subs),
        TopLevelOption::Groups(groups) => write_groups(out, groups),
        TopLevelOption::Data(options) => write_data_options(out, options),
        TopLevelOption::Empty => {},
    }
    push_char(out, ']');
    assert(out@ =~= start + top_level_json(*t));
}

impl Command {
    /// The JSON text with which the command is registered.
    pub fn to_json(&self) -> (s: String)
        ensures
            s@ == command_json(self@),
    {
        let mut out = String::new();
        out.append("{\"name\":");
        write_json_string(&mut out, self.name());
        out.append(",\"description\":");
        write_json_string(&mut out, self.description());
        out.append(",\"options\":");
        write_top_level(&mut out, self.option_tree());
        out.append("}");
        assert(out@ =~= command_json(self@));
        out
    }
}

} // verus!
