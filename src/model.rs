//! The prompt, its messages and the provider settings that the pipeline works on.
use vstd::prelude::*;
use vstd::string::*;

use crate::text::same_text;

verus! {

/// The literal that stands for the user's input inside a template message.
pub const PLACEHOLDER_TOKEN: &'static str = "#[<input>]";

pub const USER_ROLE: &'static str = "user";

pub const SYSTEM_ROLE: &'static str = "system";

pub const ASSISTANT_ROLE: &'static str = "assistant";

pub open spec fn placeholder() -> Seq<char> {
    PLACEHOLDER_TOKEN@
}

pub open spec fn user_role() -> Seq<char> {
    USER_ROLE@
}

pub open spec fn system_role() -> Seq<char> {
    SYSTEM_ROLE@
}

pub open spec fn assistant_role() -> Seq<char> {
    ASSISTANT_ROLE@
}

/// The placeholder is not empty, and the three roles are distinct.
pub proof fn lemma_constants()
    ensures
        placeholder().len() == 10,
        user_role().len() == 4,
        system_role().len() == 6,
        assistant_role().len() == 9,
        user_role() != system_role(),
        user_role() != assistant_role(),
        system_role() != assistant_role(),
{
    reveal_strlit("#[<input>]");
    reveal_strlit("user");
    reveal_strlit("system");
    reveal_strlit("assistant");
}

/// The backend that a prompt is sent to.
#[derive(Debug, Clone, Copy, PartialEq, Eq, Structural)]
pub enum Api {
    AnotherApiForTests,
    Ollama,
    Anthropic,
    Groq,
    Mistral,
    Openai,
    AzureOpenai,
    Cerebras,
}

/// The key under which the settings of `api` are stored, if it has one.
pub open spec fn api_name(api: Api) -> Option<Seq<char>> {
    match api {
        Api::Ollama => Some("ollama"@),
        Api::Openai => Some("openai"@),
        Api::AzureOpenai => Some("azureopenai"@),
        Api::Mistral => Some("mistral"@),
        Api::Groq => Some("groq"@),
        Api::Anthropic => Some("anthropic"@),
        Api::Cerebras => Some("cerebras"@),
        Api::AnotherApiForTests => None,
    }
}

impl Api {
    /// The lower-case name of the api; the test-only variant has none.
    pub fn to_string(&self) -> (r: String)
        requires
            api_name(*self) is Some,
        ensures
            Some(r@) == api_name(*self),
    {
        match self {
            Api::Ollama => String::from_str("ollama"),
            Api::Openai => String::from_str("openai"),
            Api::AzureOpenai => String::from_str("azureopenai"),
            Api::Mistral => String::from_str("mistral"),
            Api::Groq => String::from_str("groq"),
            Api::Anthropic => String::from_str("anthropic"),
            Api::Cerebras => String::from_str("cerebras"),
            Api::AnotherApiForTests => String::new(),
        }
    }
}

/// Relies on `str::to_lowercase`: the result depends on the characters alone.
#[verifier::external_body]
fn lowercase(s: &str) -> (r: String)
    ensures
        r@ == lowercase_of(s@),
{
    s.to_lowercase()
}

/// What `str::to_lowercase` gives for a text.
pub uninterp spec fn lowercase_of(s: Seq<char>) -> Seq<char>;

/// The api whose name is `name`, the test-only api excepted.
pub open spec fn api_named(name: Seq<char>) -> Option<Api> {
    if name == "ollama"@ {
        Some(Api::Ollama)
    } else if name == "openai"@ {
        Some(Api::Openai)
    } else if name == "azureopenai"@ {
        Some(Api::AzureOpenai)
    } else if name == "mistral"@ {
        Some(Api::Mistral)
    } else if name == "groq"@ {
        Some(Api::Groq)
    } else if name == "anthropic"@ {
        Some(Api::Anthropic)
    } else if name == "cerebras"@ {
        Some(Api::Cerebras)
    } else {
        None
    }
}

impl Api {
    /// The api named `name` in any case.
    pub fn from_name(name: &str) -> (r: Option<Api>)
        ensures
            r == api_named(lowercase_of(name@)),
    {
        let l = lowercase(name);
        Api::from_lowercase_name(l.as_str())
    }

    /// The api whose lower-case name is `name`.
    pub fn from_lowercase_name(name: &str) -> (r: Option<Api>)
        ensures
            r == api_named(name@),
    {
        if same_text(name, "ollama") {
            Some(Api::Ollama)
        } else if same_text(name, "openai") {
            Some(Api::Openai)
        } else if same_text(name, "azureopenai") {
            Some(Api::AzureOpenai)
        } else if same_text(name, "mistral") {
            Some(Api::Mistral)
        } else if same_text(name, "groq") {
            Some(Api::Groq)
        } else if same_text(name, "anthropic") {
            Some(Api::Anthropic)
        } else if same_text(name, "cerebras") {
            Some(Api::Cerebras)
        } else {
            None
        }
    }
}

/// What a message is, as values.
pub struct MessageModel {
    pub role: Seq<char>,
    pub content: Seq<char>,
}

/// One turn of a chat.
#[derive(Debug, Clone, PartialEq, Eq)]
pub struct Message {
    pub role: String,
    pub content: String,
}

impl View for Message {
    type V = MessageModel;

    open spec fn view(&self) -> MessageModel {
        MessageModel { role: self.role@, content: self.content@ }
    }
}

/// The values of a list of messages.
pub open spec fn models(ms: Seq<Message>) -> Seq<MessageModel> {
    ms.map_values(|m: Message| m@)
}

pub open spec fn msg(role: Seq<char>, content: Seq<char>) -> MessageModel {
    MessageModel { role, content }
}

impl Message {
    pub fn user(content: &str) -> (r: Message)
        ensures
            r@ == msg(user_role(), content@),
    {
        Message { role: String::from_str(USER_ROLE), content: String::from_str(content) }
    }

    pub fn system(content: &str) -> (r: Message)
        ensures
            r@ == msg(system_role(), content@),
    {
        Message { role: String::from_str(SYSTEM_ROLE), content: String::from_str(content) }
    }

    pub fn assistant(content: &str) -> (r: Message)
        ensures
            r@ == msg(assistant_role(), content@),
    {
        Message { role: String::from_str(ASSISTANT_ROLE), content: String::from_str(content) }
    }

    /// Whether the message has the given role.
    pub fn has_role(&self, role: &str) -> (r: bool)
        ensures
            r == (self.role@ == role@),
    {
        same_text(self.role.as_str(), role)
    }
}

/// A sampling temperature written in decimal: `digits` divided by ten to the power `scale`.
#[derive(Debug, Clone, Copy, PartialEq, Eq, Structural)]
pub struct Temperature {
    pub digits: u64,
    pub scale: u32,
}

pub open spec fn pow10(n: nat) -> nat
    decreases n,
{
    if n == 0 {
        1
    } else {
        10 * pow10((n - 1) as nat)
    }
}


pub open spec fn is_digit(c: char) -> bool {
    '0' <= c && c <= '9'
}

pub open spec fn digit_value(c: char) -> nat {
    (c as u32 - '0' as u32) as nat
}

/// The number that a run of decimal digits writes.
pub open spec fn digits_value(s: Seq<char>) -> nat
    decreases s.len(),
{
    if s.len() == 0 {
        0
    } else {
        digits_value(s.drop_last()) * 10 + digit_value(s.last())
    }
}

pub open spec fn all_digits(s: Seq<char>) -> bool {
    forall|i: int| 0 <= i < s.len() ==> is_digit(#[trigger] s[i])
}

/// The index of the first `.` of `s`, or its length when it has none.
pub open spec fn dot_index(s: Seq<char>) -> int
    decreases s.len(),
{
    if s.len() == 0 {
        0
    } else if s[0] == '.' {
        0
    } else {
        1 + dot_index(s.drop_first())
    }
}

/// The digits before the point.
pub open spec fn whole_part(s: Seq<char>) -> Seq<char> {
    s.subrange(0, dot_index(s))
}

/// The digits after the point, none when there is no point.
pub open spec fn fraction_part(s: Seq<char>) -> Seq<char> {
    if dot_index(s) < s.len() {
        s.subrange(dot_index(s) + 1, s.len() as int)
    } else {
        Seq::empty()
    }
}

/// `s` is digits, then optionally a point and more digits.
pub open spec fn is_decimal(s: Seq<char>) -> bool {
    &&& whole_part(s).len() > 0
    &&& all_digits(whole_part(s))
    &&& dot_index(s) < s.len() ==> fraction_part(s).len() > 0
    &&& all_digits(fraction_part(s))
}

/// The temperature that a decimal text writes, when it fits.
pub open spec fn parsed_temperature(s: Seq<char>) -> Option<Temperature> {
    let digits = digits_value(whole_part(s) + fraction_part(s));
    if is_decimal(s) && digits <= u64::MAX && fraction_part(s).len() <= u32::MAX {
        Some(Temperature { digits: digits as u64, scale: fraction_part(s).len() as u32 })
    } else {
        None
    }
}

proof fn lemma_digits_value_grows(s: Seq<char>, i: int)
    requires
        0 <= i <= s.len(),
    ensures
        digits_value(s.subrange(0, i)) <= digits_value(s),
    decreases s.len() - i,
{
    if i < s.len() {
        lemma_digits_value_grows(s, i + 1);
        assert(s.subrange(0, i + 1).drop_last() =~= s.subrange(0, i));
    } else {
        assert(s.subrange(0, i) =~= s);
    }
}

impl Temperature {
    /// The temperature is exactly zero.
    pub open spec fn is_zero(self) -> bool {
        self.digits == 0
    }

    /// The temperature is below `num / 10^den_scale`.
    pub open spec fn less_than(self, num: nat, den_scale: nat) -> bool {
        self.digits * pow10(den_scale) < num * pow10(self.scale as nat)
    }

    /// The smallest temperature stored in place of a zero one, ten to the power minus thirteen.
    pub open spec fn spec_epsilon() -> Temperature {
        Temperature { digits: 1, scale: 13 }
    }

    pub fn epsilon() -> (r: Temperature)
        ensures
            r == Temperature::spec_epsilon(),
    {
        Temperature { digits: 1, scale: 13 }
    }

    /// The temperature written in decimal by `text`, such as `0.7` or `42`: digits,
    /// then optionally a point and more digits. None for any other text, or when the
    /// digits do not fit.
    pub fn parse(text: &str) -> (r: Option<Temperature>)
        ensures
            r == parsed_temperature(text@),
    {
        let cs = crate::text::to_chars(text);
        let ghost s = cs@;
        let mut d: usize = 0;
        assert(s.subrange(0, s.len() as int) =~= s);
        while d < cs.len() && cs[d] != '.'
            invariant
                cs@ == s,
                d <= s.len(),
                dot_index(s) == d + dot_index(s.subrange(d as int, s.len() as int)),
            decreases cs.len() - d,
        {
            assert(s.subrange(d as int, s.len() as int).drop_first() =~= s.subrange(
                d + 1,
                s.len() as int,
            ));
            d += 1;
        }
        proof {
            if d < s.len() {
                assert(s.subrange(d as int, s.len() as int)[0] == s[d as int]);
            } else {
                assert(s.subrange(d as int, s.len() as int) =~= Seq::<char>::empty());
            }
            assert(dot_index(s) == d);
        }
        let ghost whole = whole_part(s);
        let ghost frac = fraction_part(s);
        if d == 0 || (d < cs.len() && d + 1 == cs.len()) {
            return None;
        }
        let mut combined: Vec<char> = Vec::new();
        let mut i: usize = 0;
        while i < cs.len()
            invariant
                cs@ == s,
                s == text@,
                d == dot_index(s),
                0 < d <= s.len(),
                i <= s.len(),
                forall|k: int| 0 <= k < i && k != d ==> is_digit(#[trigger] s[k]),
                whole == s.subrange(0, d as int),
                d < s.len() ==> frac == s.subrange(d + 1, s.len() as int),
                combined@ == (if i <= d {
                    s.subrange(0, i as int)
                } else {
                    s.subrange(0, d as int) + s.subrange(d + 1, i as int)
                }),
            decreases cs.len() - i,
        {
            if i != d {
                if !('0' <= cs[i] && cs[i] <= '9') {
                    proof {
                        if i < d {
                            assert(whole[i as int] == s[i as int]);
                            assert(!is_digit(whole[i as int]));
                            assert(!all_digits(whole));
                        } else {
                            assert(frac[i - d - 1] == s[i as int]);
                            assert(!is_digit(frac[i - d - 1]));
                            assert(!all_digits(frac));
                        }
                        assert(!is_decimal(s));
                    }
                    return None;
                }
                combined.push(cs[i]);
            }
            proof {
                if i + 1 > d {
                    if i == d {
                        assert(s.subrange(d + 1, i + 1) =~= Seq::<char>::empty());
                        assert(combined@ =~= s.subrange(0, d as int) + s.subrange(
                            d + 1,
                            i + 1,
                        ));
                    } else {
                        assert(combined@ =~= s.subrange(0, d as int) + s.subrange(
                            d + 1,
                            i + 1,
                        ));
                    }
                } else {
                    assert(combined@ =~= s.subrange(0, i + 1));
                }
            }
            i += 1;
        }
        proof {
            if d < s.len() {
                assert(combined@ =~= whole + frac);
            } else {
                assert(frac =~= Seq::<char>::empty());
                assert(combined@ =~= whole + frac);
            }
            assert forall|k: int| 0 <= k < whole.len() implies is_digit(#[trigger] whole[k]) by {
                assert(whole[k] == s[k]);
            }
            assert forall|k: int| 0 <= k < frac.len() implies is_digit(#[trigger] frac[k]) by {
                assert(frac[k] == s[d + 1 + k]);
            }
        }
        let ghost all = combined@;
        let mut value: u64 = 0;
        let mut j: usize = 0;
        assert(all.subrange(0, 0) =~= Seq::<char>::empty());
        while j < combined.len()
            invariant
                combined@ == all,
                s == text@,
                whole == whole_part(s),
                frac == fraction_part(s),
                all == whole + frac,
                all_digits(all),
                j <= all.len(),
                value == digits_value(all.subrange(0, j as int)),
            decreases combined.len() - j,
        {
            let c = combined[j];
            assert(is_digit(all[j as int]));
            let v = (c as u32 - '0' as u32) as u64;
            assert(all.subrange(0, j + 1).drop_last() =~= all.subrange(0, j as int));
            if value > (u64::MAX - v) / 10 {
                proof {
                    lemma_digits_value_grows(all, j + 1);
                    assert(digits_value(all.subrange(0, j + 1)) == value * 10 + v);
                    assert(value * 10 + v > u64::MAX) by (nonlinear_arith)
                        requires
                            value > (u64::MAX - v) / 10,
                            v <= 9,
                    ;
                    assert(digits_value(whole + frac) > u64::MAX);
                }
                return None;
            }
            value = value * 10 + v;
            j += 1;
        }
        assert(all.subrange(0, all.len() as int) =~= all);
        let scale_len = if d < cs.len() {
            cs.len() - d - 1
        } else {
            0
        };
        if scale_len > u32::MAX as usize {
            return None;
        }
        Some(Temperature { digits: value, scale: scale_len as u32 })
    }

    /// A whole-number temperature.
    pub fn whole(n: u64) -> (r: Temperature)
        ensures
            r == (Temperature { digits: n, scale: 0 }),
    {
        Temperature { digits: n, scale: 0 }
    }
}

/// One chat session or template.
#[derive(Debug, Clone, PartialEq)]
pub struct Prompt {
    pub api: Api,
    pub model: Option<String>,
    pub messages: Vec<Message>,
    pub temperature: Option<Temperature>,
    pub char_limit: Option<u32>,
    pub stream: Option<bool>,
}

/// The values of an optional string.
pub open spec fn opt_view(o: Option<String>) -> Option<Seq<char>> {
    match o {
        Some(s) => Some(s@),
        None => None,
    }
}

/// The instructions of the default template.
pub const DEFAULT_SYSTEM_MESSAGE: &'static str = "You are an extremely skilled programmer with a keen eye for detail and an emphasis on readable code. You have been tasked with acting as a smart version of the cat unix program. You take text and a prompt in and write text out. For that reason, it is of crucial importance to just write the desired output. Do not under any circumstance write any comment or thought as your output will be piped into other programs. Do not write the markdown delimiters for code as well. Sometimes you will be asked to implement or extend some input code. Same thing goes here, write only what was asked because what you write will be directly added to the user's editor. Never ever write ``` around the code. Make sure to keep the indentation and formatting. ";

/// The character budget of the built-in templates.
pub const DEFAULT_CHAR_LIMIT: u32 = 50000;

impl Prompt {
    /// A template for Ollama with no messages.
    pub fn empty() -> (r: Prompt)
        ensures
            r.api == Api::Ollama,
            r.model is None,
            r.messages@.len() == 0,
            r.temperature is None,
            r.char_limit == Some(DEFAULT_CHAR_LIMIT),
            r.stream is None,
    {
        Prompt {
            api: Api::Ollama,
            model: None,
            messages: Vec::new(),
            temperature: None,
            char_limit: Some(DEFAULT_CHAR_LIMIT),
            stream: None,
        }
    }
}

impl Default for Prompt {
    /// A template for Ollama whose one system message asks the model to behave as a smart `cat`.
    fn default() -> (r: Prompt)
        ensures
            r.api == Api::Ollama,
            r.model is None,
            models(r.messages@) == seq![msg(system_role(), DEFAULT_SYSTEM_MESSAGE@)],
            r.temperature is None,
            r.char_limit == Some(DEFAULT_CHAR_LIMIT),
            r.stream is None,
    {
        let mut messages: Vec<Message> = Vec::new();
        messages.push(Message::system(DEFAULT_SYSTEM_MESSAGE));
        assert(models(messages@) =~= seq![msg(system_role(), DEFAULT_SYSTEM_MESSAGE@)]);
        Prompt {
            api: Api::Ollama,
            model: None,
            messages,
            temperature: None,
            char_limit: Some(DEFAULT_CHAR_LIMIT),
            stream: None,
        }
    }
}

} // verus!
