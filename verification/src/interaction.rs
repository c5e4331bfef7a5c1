//! Slash commands: the commands the bot registers, their options, and the interactions that
//! users send by invoking them.

use vstd::prelude::*;

use crate::errors::OptionType;
use crate::ids::{ApplicationId, ChannelId, CommandId, GuildId, InteractionId, RoleId, UserId};
use crate::model::GuildMember;
use crate::text::{parse_u64, parsed_u64};

verus! {

/// A character that may stand in the name of a command or option: an ASCII letter or digit,
/// or `_`.
pub open spec fn name_char(c: char) -> bool {
    ('a' <= c <= 'z') || ('A' <= c <= 'Z') || ('0' <= c <= '9') || c == '_'
}

/// A name made of name characters only, between `min` and `max` characters long.
pub open spec fn valid_name(name: Seq<char>, min: nat, max: nat) -> bool {
    &&& forall|i: int| 0 <= i < name.len() ==> name_char(#[trigger] name[i])
    &&& min <= name.len() <= max
}

/// A command's name: 3 to 32 name characters.
pub open spec fn valid_command_name(name: Seq<char>) -> bool {
    valid_name(name, 3, 32)
}

/// An option's name: 1 to 32 name characters.
pub open spec fn valid_option_name(name: Seq<char>) -> bool {
    valid_name(name, 1, 32)
}

/// A description: 1 to 100 characters.
pub open spec fn valid_description(description: Seq<char>) -> bool {
    1 <= description.len() <= 100
}

fn is_name_char(c: char) -> (b: bool)
    ensures
        b == name_char(c),
{
    ('a' <= c && c <= 'z') || ('A' <= c && c <= 'Z') || ('0' <= c && c <= '9') || c == '_'
}

fn is_valid_name(name: &str, min: usize, max: usize) -> (b: bool)
    ensures
        b == valid_name(name@, min as nat, max as nat),
{
    let len = name.unicode_len();
    let mut i: usize = 0;
    while i < len
        invariant
            i <= len,
            len == name@.len(),
            forall|j: int| 0 <= j < i ==> name_char(#[trigger] name@[j]),
        decreases len - i,
    {
        if !is_name_char(name.get_char(i)) {
            return false;
        }
        i = i + 1;
    }
    min <= len && len <= max
}

/// Whether `name` may name a command.
pub fn is_valid_command_name(name: &str) -> (b: bool)
    ensures
        b == valid_command_name(name@),
{
    is_valid_name(name, 3, 32)
}

/// Whether `name` may name an option.
pub fn is_valid_option_name(name: &str) -> (b: bool)
    ensures
        b == valid_option_name(name@),
{
    is_valid_name(name, 1, 32)
}

/// Whether `description` may describe a command or option.
pub fn is_valid_description(description: &str) -> (b: bool)
    ensures
        b == valid_description(description@),
{
    let len = description.unicode_len();
    1 <= len && len <= 100
}

/// A slash command as the bot registers it.
#[derive(Debug, Clone)]
pub struct Command {
    name: &'static str,
    description: String,
    options: TopLevelOption,
}

/// What a command holds.
pub struct CommandView {
    pub name: Seq<char>,
    pub description: Seq<char>,
    pub options: TopLevelOption,
}

impl View for Command {
    type V = CommandView;

    closed spec fn view(&self) -> CommandView {
        CommandView { name: self.name@, description: self.description@, options: self.options }
    }
}

impl Command {
    /// A command with a valid name and description.
    pub fn new(name: &'static str, description: &str, options: TopLevelOption) -> (c: Self)
        requires
            valid_command_name(name@),
            valid_description(description@),
        ensures
            c@.name == name@,
            c@.description == description@,
            c@.options == options,
    {
        Command { name, description: String::from_str(description), options }
    }

    /// The command's name.
    pub fn name(&self) -> (n: &str)
        ensures
            n@ == self@.name,
    {
        self.name
    }

    /// The command's description.
    pub fn description(&self) -> (d: &str)
        ensures
            d@ == self@.description,
    {
        self.description.as_str()
    }

    /// The command's options, borrowed.
    pub fn option_tree(&self) -> (o: &TopLevelOption)
        ensures
            *o == self@.options,
    {
        &self.options
    }

    /// The command's options.
    pub fn options(self) -> (o: TopLevelOption)
        ensures
            o == self@.options,
    {
        self.options
    }
}

/// The options of a command: subcommands, groups of subcommands, or parameters.
#[derive(Debug, Clone)]
pub enum TopLevelOption {
    Commands(Vec<SubCommand>),
    Groups(Vec<SubCommandGroup>),
    Data(Vec<DataOption>),
    Empty,
}

/// At most one option is the default one.
pub open spec fn at_most_one_default(options: Seq<DataOption>) -> bool {
    forall|i: int, j: int|
        0 <= i < j < options.len() ==> !(#[trigger] options[i].is_default() && #[trigger] options[j].is_default())
}

/// The required options all come before the optional ones.
pub open spec fn required_first(options: Seq<DataOption>) -> bool {
    forall|i: int, j: int|
        0 <= i < j < options.len() ==> (#[trigger] options[j].is_required() ==> #[trigger] options[i].is_required())
}

/// No two options share a name.
pub open spec fn distinct_names(options: Seq<DataOption>) -> bool {
    forall|i: int, j: int|
        0 <= i < j < options.len() ==> #[trigger] options[i].name_view() != #[trigger] options[j].name_view()
}

/// The parameters a command may take.
pub open spec fn valid_options(options: Seq<DataOption>) -> bool {
    at_most_one_default(options) && required_first(options) && distinct_names(options)
}

fn str_eq(a: &str, b: &str) -> (e: bool)
    ensures
        e == (a@ == b@),
{
    let la = a.unicode_len();
    let lb = b.unicode_len();
    if la != lb {
        return false;
    }
    let mut i: usize = 0;
    while i < la
        invariant
            i <= la,
            la == a@.len(),
            lb == b@.len(),
            la == lb,
            forall|j: int| 0 <= j < i ==> a@[j] == b@[j],
        decreases la - i,
    {
        if a.get_char(i) != b.get_char(i) {
            return false;
        }
        i = i + 1;
    }
    assert(a@ =~= b@);
    true
}

impl TopLevelOption {
    /// No options.
    pub fn empty() -> (o: Self)
        ensures
            o is Empty,
    {
        TopLevelOption::Empty
    }

    /// Whether `options` can be the parameters of a command: at most one is the default, the
    /// required ones come first, and no two share a name.
    pub fn are_valid_options(options: &Vec<DataOption>) -> (b: bool)
        ensures
            b == valid_options(options@),
    {
        let n = options.len();
        let mut i: usize = 0;
        while i < n
            invariant
                i <= n,
                n == options@.len(),
                forall|a: int, b: int| 0 <= a < b < options@.len() && a < i ==> {
                    &&& !(options@[a].is_default() && options@[b].is_default())
                    &&& (options@[b].is_required() ==> options@[a].is_required())
                    &&& options@[a].name_view() != options@[b].name_view()
                },
            decreases n - i,
        {
            let mut j: usize = i + 1;
            while j < n
                invariant
                    i < n,
                    i + 1 <= j <= n,
                    n == options@.len(),
                    forall|a: int, b: int| 0 <= a < b < options@.len() && a < i ==> {
                        &&& !(options@[a].is_default() && options@[b].is_default())
                        &&& (options@[b].is_required() ==> options@[a].is_required())
                        &&& options@[a].name_view() != options@[b].name_view()
                    },
                    forall|b: int| i < b < j ==> {
                        &&& !(options@[i as int].is_default() && options@[b].is_default())
                        &&& (options@[b].is_required() ==> options@[i as int].is_required())
                        &&& options@[i as int].name_view() != options@[b].name_view()
                    },
                decreases n - j,
            {
                let oi = &options[i];
                let oj = &options[j];
                if oi.default() && oj.default() {
                    assert(!at_most_one_default(options@)) by {
                        assert(options@[i as int].is_default() && options@[j as int].is_default());
                    }
                    return false;
                }
                if oj.required() && !oi.required() {
                    assert(!required_first(options@)) by {
                        assert(options@[j as int].is_required() && !options@[i as int].is_required());
                    }
                    return false;
                }
                if str_eq(oi.name(), oj.name()) {
                    assert(!distinct_names(options@)) by {
                        assert(options@[i as int].name_view() == options@[j as int].name_view());
                    }
                    return false;
                }
                j = j + 1;
            }
            i = i + 1;
        }
        true
    }

    /// A command's parameters, which must be valid.
    pub fn options(options: Vec<DataOption>) -> (o: Self)
        requires
            valid_options(options@),
        ensures
            o == TopLevelOption::Data(options),
    {
        TopLevelOption::Data(options)
    }
}

/// A subcommand and its parameters.
#[derive(Debug, Clone)]
pub struct SubCommand {
    /// 1-32 character name
    pub name: &'static str,
    /// 1-100 character description
    pub description: &'static str,
    /// the parameters to this subcommand
    pub options: Vec<DataOption>,
}

/// A group of subcommands.
#[derive(Debug, Clone)]
pub struct SubCommandGroup {
    /// 1-32 character name
    pub name: &'static str,
    /// 1-100 character description
    pub description: &'static str,
    /// the subcommands in this subcommand group
    pub sub_commands: Vec<SubCommand>,
}

/// A parameter of a command, by the type of its value.
#[derive(Debug, Clone)]
pub enum DataOption {
    String(CommandDataOption<&'static str>),
    Integer(CommandDataOption<i64>),
    Boolean(CommandDataOption<bool>),
    User(CommandDataOption<UserId>),
    Channel(CommandDataOption<ChannelId>),
    Role(CommandDataOption<RoleId>),
}

impl DataOption {
    /// The parameter's name.
    pub open spec fn name_view(self) -> Seq<char> {
        match self {
            DataOption::String(o) => o.name_view(),
            DataOption::Integer(o) => o.name_view(),
            DataOption::Boolean(o) => o.name_view(),
            DataOption::User(o) => o.name_view(),
            DataOption::Channel(o) => o.name_view(),
            DataOption::Role(o) => o.name_view(),
        }
    }

    /// The parameter's description.
    pub open spec fn description_view(self) -> Seq<char> {
        match self {
            DataOption::String(o) => o.description_view(),
            DataOption::Integer(o) => o.description_view(),
            DataOption::Boolean(o) => o.description_view(),
            DataOption::User(o) => o.description_view(),
            DataOption::Channel(o) => o.description_view(),
            DataOption::Role(o) => o.description_view(),
        }
    }

    /// Whether the parameter is the default one.
    pub open spec fn is_default(self) -> bool {
        match self {
            DataOption::String(o) => o.default_flag(),
            DataOption::Integer(o) => o.default_flag(),
            DataOption::Boolean(o) => o.default_flag(),
            DataOption::User(o) => o.default_flag(),
            DataOption::Channel(o) => o.default_flag(),
            DataOption::Role(o) => o.default_flag(),
        }
    }

    /// Whether the parameter is required.
    pub open spec fn is_required(self) -> bool {
        match self {
            DataOption::String(o) => o.required_flag(),
            DataOption::Integer(o) => o.required_flag(),
            DataOption::Boolean(o) => o.required_flag(),
            DataOption::User(o) => o.required_flag(),
            DataOption::Channel(o) => o.required_flag(),
            DataOption::Role(o) => o.required_flag(),
        }
    }

    /// The parameter's name.
    pub fn name(&self) -> (n: &str)
        ensures
            n@ == self.name_view(),
    {
        match self {
            DataOption::String(o) => o.name.as_str(),
            DataOption::Integer(o) => o.name.as_str(),
            DataOption::Boolean(o) => o.name.as_str(),
            DataOption::User(o) => o.name.as_str(),
            DataOption::Channel(o) => o.name.as_str(),
            DataOption::Role(o) => o.name.as_str(),
        }
    }

    /// The parameter's description.
    pub fn description(&self) -> (d: &str)
        ensures
            d@ == self.description_view(),
    {
        match self {
            DataOption::String(o) => o.description.as_str(),
            DataOption::Integer(o) => o.description.as_str(),
            DataOption::Boolean(o) => o.description.as_str(),
            DataOption::User(o) => o.description.as_str(),
            DataOption::Channel(o) => o.description.as_str(),
            DataOption::Role(o) => o.description.as_str(),
        }
    }

    /// Whether the parameter is the default one.
    pub fn default(&self) -> (b: bool)
        ensures
            b == self.is_default(),
    {
        match self {
            DataOption::String(o) => o.default,
            DataOption::Integer(o) => o.default,
            DataOption::Boolean(o) => o.default,
            DataOption::User(o) => o.default,
            DataOption::Channel(o) => o.default,
            DataOption::Role(o) => o.default,
        }
    }

    /// Whether the parameter is required.
    pub fn required(&self) -> (b: bool)
        ensures
            b == self.is_required(),
    {
        match self {
            DataOption::String(o) => o.required,
            DataOption::Integer(o) => o.required,
            DataOption::Boolean(o) => o.required,
            DataOption::User(o) => o.required,
            DataOption::Channel(o) => o.required,
            DataOption::Role(o) => o.required,
        }
    }
}

/// A parameter whose values have type `T`.
#[derive(Debug, Clone)]
pub struct CommandDataOption<T> {
    /// 1-32 character name
    name: String,
    /// 1-100 character description
    description: String,
    /// the first required option for the user to complete--only one option can be default
    default: bool,
    /// if the parameter is required or optional--default false
    required: bool,
    /// choices for string and int types for the user to pick from
    choices: Vec<CommandChoice<T>>,
}

impl<T> CommandDataOption<T> {
    /// The parameter's name.
    pub closed spec fn name_view(self) -> Seq<char> {
        self.name@
    }

    /// The parameter's description.
    pub closed spec fn description_view(self) -> Seq<char> {
        self.description@
    }

    /// Whether the parameter is the default one.
    pub closed spec fn default_flag(self) -> bool {
        self.default
    }

    /// Whether the parameter is required.
    pub closed spec fn required_flag(self) -> bool {
        self.required
    }

    /// The values the user picks from, if limited.
    pub closed spec fn choices_view(self) -> Seq<CommandChoice<T>> {
        self.choices@
    }

    /// An optional parameter with a valid name and description and no fixed choices.
    pub fn new(name: &str, description: &str) -> (o: Self)
        requires
            valid_option_name(name@),
            valid_description(description@),
        ensures
            o.name_view() == name@,
            o.description_view() == description@,
            !o.default_flag(),
            !o.required_flag(),
            o.choices_view().len() == 0,
    {
        CommandDataOption {
            name: String::from_str(name),
            description: String::from_str(description),
            default: false,
            required: false,
            choices: Vec::new(),
        }
    }

    /// The parameter's name.
    pub fn name(&self) -> (n: &str)
        ensures
            n@ == self.name_view(),
    {
        self.name.as_str()
    }

    /// The parameter's description.
    pub fn description(&self) -> (d: &str)
        ensures
            d@ == self.description_view(),
    {
        self.description.as_str()
    }

    /// Whether the parameter is the default one.
    pub fn is_default(&self) -> (b: bool)
        ensures
            b == self.default_flag(),
    {
        self.default
    }

    /// Whether the parameter is required.
    pub fn is_required(&self) -> (b: bool)
        ensures
            b == self.required_flag(),
    {
        self.required
    }

    /// The values the user picks from; empty when any value goes.
    pub fn choice_list(&self) -> (c: &Vec<CommandChoice<T>>)
        ensures
            c@ == self.choices_view(),
    {
        &self.choices
    }

    /// The same parameter, made the default one.
    pub fn default(self) -> (o: Self)
        ensures
            o.default_flag(),
            o.name_view() == self.name_view(),
            o.description_view() == self.description_view(),
            o.required_flag() == self.required_flag(),
            o.choices_view() == self.choices_view(),
    {
        let mut s = self;
        s.default = true;
        s
    }

    /// The same parameter, made required.
    pub fn required(self) -> (o: Self)
        ensures
            o.required_flag(),
            o.name_view() == self.name_view(),
            o.description_view() == self.description_view(),
            o.default_flag() == self.default_flag(),
            o.choices_view() == self.choices_view(),
    {
        let mut s = self;
        s.required = true;
        s
    }
}

impl CommandDataOption<&'static str> {
    /// A string parameter.
    pub fn new_str(name: &'static str, description: &'static str) -> (o: Self)
        requires
            valid_option_name(name@),
            valid_description(description@),
        ensures
            o.name_view() == name@,
            o.description_view() == description@,
            !o.default_flag(),
            !o.required_flag(),
            o.choices_view().len() == 0,
    {
        Self::new(name, description)
    }

    /// The same parameter, limited to `choices`.
    pub fn choices(self, choices: Vec<CommandChoice<&'static str>>) -> (o: Self)
        ensures
            o.choices_view() == choices@,
            o.name_view() == self.name_view(),
            o.description_view() == self.description_view(),
            o.default_flag() == self.default_flag(),
            o.required_flag() == self.required_flag(),
    {
        let mut s = self;
        s.choices = choices;
        s
    }
}

impl CommandDataOption<i64> {
    /// An integer parameter.
    pub fn new_int(name: &'static str, description: &'static str) -> (o: Self)
        requires
            valid_option_name(name@),
            valid_description(description@),
        ensures
            o.name_view() == name@,
            o.description_view() == description@,
            !o.default_flag(),
            !o.required_flag(),
            o.choices_view().len() == 0,
    {
        Self::new(name, description)
    }

    /// The same parameter, limited to `choices`.
    pub fn choices(self, choices: Vec<CommandChoice<i64>>) -> (o: Self)
        ensures
            o.choices_view() == choices@,
            o.name_view() == self.name_view(),
            o.description_view() == self.description_view(),
            o.default_flag() == self.default_flag(),
            o.required_flag() == self.required_flag(),
    {
        let mut s = self;
        s.choices = choices;
        s
    }
}

/// One value a user may pick for a parameter, with the name it is shown by.
#[derive(Debug, Clone, Copy)]
pub struct CommandChoice<T> {
    /// 1-100 character choice name
    name: &'static str,
    /// value of the choice
    value: T,
}

impl<T> CommandChoice<T> {
    /// The name the choice is shown by.
    pub closed spec fn name_view(self) -> Seq<char> {
        self.name@
    }

    /// The value the choice stands for.
    pub closed spec fn value_view(self) -> T {
        self.value
    }

    /// The name the choice is shown by.
    pub fn name(&self) -> (n: &'static str)
        ensures
            n@ == self.name_view(),
    {
        self.name
    }

    /// The value the choice stands for.
    pub fn value(&self) -> (v: &T)
        ensures
            *v == self.value_view(),
    {
        &self.value
    }

    /// A choice with a name of 1 to 100 characters.
    pub fn new(name: &'static str, value: T) -> (c: Self)
        requires
            valid_description(name@),
        ensures
            c.name_view() == name@,
            c.value_view() == value,
    {
        CommandChoice { name, value }
    }
}

impl CommandChoice<&'static str> {
    /// A string choice shown by its own value.
    pub fn new_str(name_value: &'static str) -> (c: Self)
        requires
            valid_description(name_value@),
        ensures
            c.name_view() == name_value@,
            c.value_view() == name_value,
    {
        Self::new(name_value, name_value)
    }
}

/// A command as Discord reports it back.
#[derive(Debug)]
pub struct ApplicationCommand {
    /// unique id of the command
    pub id: CommandId,
    /// unique id of the parent application
    pub application_id: ApplicationId,
    /// 3-32 character name
    pub name: String,
    /// 1-100 character description
    pub description: String,
    /// the parameters for the command
    pub options: Vec<ApplicationCommandOption>,
}

/// An option of a command as Discord reports it back.
#[derive(Debug)]
pub struct ApplicationCommandOption {
    /// the type of the option
    pub kind: ApplicationCommandOptionType,
    /// 1-32 character name
    pub name: String,
    /// 1-100 character description
    pub description: String,
    /// the first required option for the user to complete--only one option can be default
    pub default: bool,
    /// if the parameter is required or optional--default false
    pub required: bool,
    /// choices for string and int types for the user to pick from
    pub choices: Vec<ApplicationCommandOptionChoice>,
    /// if the option is a subcommand or subcommand group type, this nested options will be the parameters
    pub options: Vec<ApplicationCommandOption>,
}

/// The type of a command option.
#[derive(Debug, Clone, Copy, PartialEq, Eq, Structural)]
pub enum ApplicationCommandOptionType {
    SubCommand,
    SubCommandGroup,
    String,
    Integer,
    Boolean,
    User,
    Channel,
    Role,
}

/// The number Discord gives each option type.
pub open spec fn option_type_code(t: ApplicationCommandOptionType) -> u8 {
    match t {
        ApplicationCommandOptionType::SubCommand => 1,
        ApplicationCommandOptionType::SubCommandGroup => 2,
        ApplicationCommandOptionType::String => 3,
        ApplicationCommandOptionType::Integer => 4,
        ApplicationCommandOptionType::Boolean => 5,
        ApplicationCommandOptionType::User => 6,
        ApplicationCommandOptionType::Channel => 7,
        ApplicationCommandOptionType::Role => 8,
    }
}

impl ApplicationCommandOptionType {
    /// The number Discord gives this option type.
    pub fn code(&self) -> (c: u8)
        ensures
            c == option_type_code(*self),
    {
        match self {
            ApplicationCommandOptionType::SubCommand => 1,
            ApplicationCommandOptionType::SubCommandGroup => 2,
            ApplicationCommandOptionType::String => 3,
            ApplicationCommandOptionType::Integer => 4,
            ApplicationCommandOptionType::Boolean => 5,
            ApplicationCommandOptionType::User => 6,
            ApplicationCommandOptionType::Channel => 7,
            ApplicationCommandOptionType::Role => 8,
        }
    }

    /// The option type Discord numbers `code`, if any.
    pub fn from_code(code: u8) -> (t: Option<Self>)
        ensures
            match t {
                Some(t) => option_type_code(t) == code,
                None => code < 1 || code > 8,
            },
    {
        if code == 1 {
            Some(ApplicationCommandOptionType::SubCommand)
        } else if code == 2 {
            Some(ApplicationCommandOptionType::SubCommandGroup)
        } else if code == 3 {
            Some(ApplicationCommandOptionType::String)
        } else if code == 4 {
            Some(ApplicationCommandOptionType::Integer)
        } else if code == 5 {
            Some(ApplicationCommandOptionType::Boolean)
        } else if code == 6 {
            Some(ApplicationCommandOptionType::User)
        } else if code == 7 {
            Some(ApplicationCommandOptionType::Channel)
        } else if code == 8 {
            Some(ApplicationCommandOptionType::Role)
        } else {
            None
        }
    }
}

/// A value a user may pick for an option; if an option has choices, they are the only values
/// a user can give.
#[derive(Debug, Clone)]
pub struct ApplicationCommandOptionChoice {
    /// 1-100 character choice name
    pub name: String,
    /// value of the choice
    pub value: OptionValue,
}

/// The value a user gave an option.
#[derive(Debug, Clone)]
pub enum OptionValue {
    String(String),
    Integer(i64),
    Bool(bool),
}

impl OptionValue {
    /// The string this value holds.
    pub fn unwrap_string(self) -> (s: String)
        requires
            self is String,
        ensures
            s == self->String_0,
    {
        match self {
            OptionValue::String(s) => s,
            OptionValue::Integer(_) => { proof { assert(false); } String::new() },
            OptionValue::Bool(_) => { proof { assert(false); } String::new() },
        }
    }

    /// The integer this value holds.
    pub fn unwrap_int(self) -> (i: i64)
        requires
            self is Integer,
        ensures
            i == self->Integer_0,
    {
        match self {
            OptionValue::Integer(i) => i,
            OptionValue::String(_) => { proof { assert(false); } 0 },
            OptionValue::Bool(_) => { proof { assert(false); } 0 },
        }
    }

    /// The boolean this value holds.
    pub fn unwrap_bool(self) -> (b: bool)
        requires
            self is Bool,
        ensures
            b == self->Bool_0,
    {
        match self {
            OptionValue::Bool(b) => b,
            OptionValue::String(_) => { proof { assert(false); } false },
            OptionValue::Integer(_) => { proof { assert(false); } false },
        }
    }

    /// The snowflake that this string value spells.
    fn unwrap_snowflake(self) -> (n: u64)
        requires
            self is String,
            parsed_u64(self->String_0@) is Some,
        ensures
            Some(n) == parsed_u64(self->String_0@),
    {
        let s = self.unwrap_string();
        match parse_u64(s.as_str()) {
            Some(n) => n,
            None => { proof { assert(false); } 0 },
        }
    }

    /// The user whose id this string value spells.
    pub fn unwrap_user(self) -> (u: UserId)
        requires
            self is String,
            parsed_u64(self->String_0@) is Some,
        ensures
            Some(u.0) == parsed_u64(self->String_0@),
    {
        UserId(self.unwrap_snowflake())
    }

    /// The channel whose id this string value spells.
    pub fn unwrap_channel(self) -> (c: ChannelId)
        requires
            self is String,
            parsed_u64(self->String_0@) is Some,
        ensures
            Some(c.0) == parsed_u64(self->String_0@),
    {
        ChannelId(self.unwrap_snowflake())
    }

    /// The role whose id this string value spells.
    pub fn unwrap_role(self) -> (r: RoleId)
        requires
            self is String,
            parsed_u64(self->String_0@) is Some,
        ensures
            Some(r.0) == parsed_u64(self->String_0@),
    {
        RoleId(self.unwrap_snowflake())
    }

    /// The error that says this value is not of the `desired_type`.
    pub fn parse_error(self, desired_type: ApplicationCommandOptionType) -> (e: OptionType)
        ensures
            e.value == self,
            e.desired == desired_type,
    {
        OptionType { value: self, desired: desired_type }
    }
}

/// What a user sends by invoking a command.
#[derive(Debug)]
pub struct Interaction {
    /// id of the interaction
    pub id: InteractionId,
    /// the type of interaction
    pub kind: InteractionType,
    /// the command data payload
    pub data: ApplicationCommandInteractionData,
    /// the guild it was sent from
    pub guild_id: GuildId,
    /// the channel it was sent from
    pub channel_id: ChannelId,
    /// guild member data for the invoking user
    pub member: GuildMember,
    /// a continuation token for responding to the interaction
    pub token: String,
}

/// The type of an interaction.
#[derive(Debug, Clone, Copy, PartialEq, Eq, Structural)]
pub enum InteractionType {
    Ping,
    ApplicationCommand,
}

impl InteractionType {
    /// The number Discord gives this interaction type.
    pub fn code(&self) -> (c: u8)
        ensures
            c == (match *self {
                InteractionType::Ping => 1u8,
                InteractionType::ApplicationCommand => 2u8,
            }),
    {
        match self {
            InteractionType::Ping => 1,
            InteractionType::ApplicationCommand => 2,
        }
    }
}

/// The command that was invoked, with the values given to it.
#[derive(Debug)]
pub struct ApplicationCommandInteractionData {
    /// the ID of the invoked command
    pub id: CommandId,
    /// the name of the invoked command
    pub name: String,
    /// the params + values from the user
    pub options: Vec<ApplicationCommandInteractionDataOption>,
}

/// A parameter and its value, or a subcommand or group with its own options; `value` and
/// `options` do not both stand.
#[derive(Debug)]
pub struct ApplicationCommandInteractionDataOption {
    /// the name of the parameter
    pub name: String,
    /// the value of the pair
    pub value: Option<OptionValue>,
    /// present if this option is a group or subcommand
    pub options: Vec<ApplicationCommandInteractionDataOption>,
}

} // verus!
