//! Validation of text that comes from outside: titles, messages, names,
//! paths and the like.
//!
//! Each `validate_` function trims or lowercases its input with `std`, asks
//! the pattern engine where a format is involved, and hands the outcome to a
//! `check_` function, which decides and whose contract is exact.

use vstd::prelude::*;
use vstd::utf8::encode_utf8;
use crate::errors::{AppError, AppResult, ErrorKind};
use crate::text::{
    contains, decimal_digits, decimal_text, is_substring, join2, join3, lowercased, push_char,
    push_decimal, push_signed_decimal, push_text, str_eq, to_lowercase, trim, trimmed,
};

verus! {

/// Longest accepted inputs, in bytes.
#[derive(Debug, Clone, Copy, PartialEq, Eq)]
pub struct ValidationLimits {
    pub conversation_title: usize,
    pub message_content: usize,
    pub persona_name: usize,
    pub persona_description: usize,
    pub system_prompt: usize,
    pub api_key: usize,
    pub file_path: usize,
    pub url: usize,
}

impl Default for ValidationLimits {
    fn default() -> (limits: Self)
        ensures
            limits == ValidationLimits::spec_default(),
    {
        ValidationLimits {
            conversation_title: 200,
            message_content: 100_000,
            persona_name: 50,
            persona_description: 500,
            system_prompt: 10_000,
            api_key: 200,
            file_path: 1000,
            url: 2000,
        }
    }
}

impl ValidationLimits {
    /// The default limits.
    pub open spec fn spec_default() -> Self {
        ValidationLimits {
            conversation_title: 200,
            message_content: 100_000,
            persona_name: 50,
            persona_description: 500,
            system_prompt: 10_000,
            api_key: 200,
            file_path: 1000,
            url: 2000,
        }
    }
}

/// The length of a text in bytes of UTF-8.
pub open spec fn byte_len(text: Seq<char>) -> nat {
    encode_utf8(text).len()
}

/// Script tags, script URLs and event handlers.
pub open spec fn has_xss_pattern(lower: Seq<char>) -> bool {
    ||| is_substring("<script"@, lower)
    ||| is_substring("</script>"@, lower)
    ||| is_substring("javascript:"@, lower)
    ||| is_substring("vbscript:"@, lower)
    ||| is_substring("onload="@, lower)
    ||| is_substring("onerror="@, lower)
    ||| is_substring("onclick="@, lower)
    ||| is_substring("onmouseover="@, lower)
}

/// Fragments of statements that change or combine tables.
pub open spec fn has_sql_pattern(lower: Seq<char>) -> bool {
    ||| is_substring("drop table"@, lower)
    ||| is_substring("insert into"@, lower)
    ||| is_substring("delete from"@, lower)
    ||| is_substring("update set"@, lower)
    ||| is_substring("union select"@, lower)
}

/// Quotes, statement separators and comment markers.
pub open spec fn has_dangerous_special(lower: Seq<char>) -> bool {
    ||| is_substring("'"@, lower)
    ||| is_substring("\""@, lower)
    ||| is_substring(";"@, lower)
    ||| is_substring("--"@, lower)
    ||| is_substring("/*"@, lower)
    ||| is_substring("*/"@, lower)
}

/// Whether a lowercased text holds anything usable for injection.
pub open spec fn is_dangerous(lower: Seq<char>) -> bool {
    has_xss_pattern(lower) || has_sql_pattern(lower) || has_dangerous_special(lower)
}

/// Control characters: the code points below U+0020 and from U+007F to U+009F.
pub open spec fn is_control_char(c: char) -> bool {
    (c as u32) <= 0x1f || (0x7f <= (c as u32) && (c as u32) <= 0x9f)
}

/// Whether message content keeps a character: everything but control
/// characters, of which line feed, carriage return and tab stay.
pub open spec fn kept_in_content(c: char) -> bool {
    !is_control_char(c) || c == '\n' || c == '\r' || c == '\t'
}

/// Message content without the control characters that are not kept.
pub open spec fn sanitized_content(text: Seq<char>) -> Seq<char>
    decreases text.len(),
{
    if text.len() == 0 {
        Seq::empty()
    } else if kept_in_content(text.last()) {
        sanitized_content(text.drop_last()).push(text.last())
    } else {
        sanitized_content(text.drop_last())
    }
}

/// A system prompt without its NUL characters.
pub open spec fn sanitized_prompt(text: Seq<char>) -> Seq<char>
    decreases text.len(),
{
    if text.len() == 0 {
        Seq::empty()
    } else if text.last() != '\0' {
        sanitized_prompt(text.drop_last()).push(text.last())
    } else {
        sanitized_prompt(text.drop_last())
    }
}

/// The message for an input that is too long.
pub open spec fn too_long(what: Seq<char>, limit: usize) -> Seq<char> {
    what + " cannot exceed "@ + decimal_digits(limit as nat) + " characters"@
}

fn byte_length(text: &str) -> (n: usize)
    ensures
        n == byte_len(text@),
{
    text.as_bytes().len()
}

fn too_long_error(what: &str, limit: usize) -> (e: AppError)
    ensures
        e.is(ErrorKind::Validation, too_long(what@, limit)),
{
    let mut message = join2(what, " cannot exceed ");
    push_decimal(&mut message, limit as u128);
    push_text(&mut message, " characters");
    AppError::Validation { message }
}

/// The outcome of checking a conversation title that was trimmed and whose
/// lowercase form is `lower`.
pub open spec fn title_outcome(trimmed: Seq<char>, lower: Seq<char>, limit: usize) -> Result<
    Seq<char>,
    Seq<char>,
> {
    if trimmed.len() == 0 {
        Err("Conversation title cannot be empty"@)
    } else if byte_len(trimmed) > limit {
        Err(too_long("Conversation title"@, limit))
    } else if is_dangerous(lower) {
        Err("Conversation title contains invalid characters"@)
    } else {
        Ok(trimmed)
    }
}

/// The outcome of checking a persona description that was trimmed.
pub open spec fn description_outcome(trimmed: Seq<char>, lower: Seq<char>, limit: usize) -> Result<
    Seq<char>,
    Seq<char>,
> {
    if byte_len(trimmed) > limit {
        Err(too_long("Persona description"@, limit))
    } else if is_dangerous(lower) {
        Err("Persona description contains invalid characters"@)
    } else {
        Ok(trimmed)
    }
}

/// The outcome of checking message content whose trimmed form is `trimmed`.
pub open spec fn content_outcome(content: Seq<char>, trimmed: Seq<char>, limit: usize) -> Result<
    Seq<char>,
    Seq<char>,
> {
    if trimmed.len() == 0 {
        Err("Message content cannot be empty"@)
    } else if byte_len(content) > limit {
        Err(too_long("Message content"@, limit))
    } else {
        Ok(sanitized_content(content))
    }
}

/// The outcome of checking a system prompt whose trimmed form is `trimmed`.
pub open spec fn prompt_outcome(prompt: Seq<char>, trimmed: Seq<char>, limit: usize) -> Result<
    Seq<char>,
    Seq<char>,
> {
    if trimmed.len() == 0 {
        Err("System prompt cannot be empty"@)
    } else if byte_len(prompt) > limit {
        Err(too_long("System prompt"@, limit))
    } else {
        Ok(sanitized_prompt(prompt))
    }
}

/// The outcome of checking an integer against a range.
pub open spec fn range_outcome(value: i64, min: i64, max: i64, field_name: Seq<char>) -> Result<
    i64,
    Seq<char>,
> {
    if value < min || value > max {
        Err(
            field_name + " must be between "@ + decimal_text(min as int) + " and "@ + decimal_text(
                max as int,
            ),
        )
    } else {
        Ok(value)
    }
}

/// Whether a text names a message role.
pub open spec fn is_role(text: Seq<char>) -> bool {
    text == "user"@ || text == "assistant"@ || text == "system"@
}

/// The outcome of checking a role that was trimmed and lowercased.
pub open spec fn role_outcome(normal: Seq<char>) -> Result<Seq<char>, Seq<char>> {
    if is_role(normal) {
        Ok(normal)
    } else {
        Err("Invalid message role. Must be one of: user, assistant, system"@)
    }
}

/// Whether a lowercased extension is one of the allowed ones.
pub open spec fn extension_allowed(allowed: Seq<Seq<char>>, lower_extension: Seq<char>) -> bool {
    exists|i: int| 0 <= i < allowed.len() && #[trigger] allowed[i] == lower_extension
}

/// The outcome of checking a file path that was trimmed. `extension` is the
/// path's extension, if it has one, and `lower_extension` its lowercase form.
pub open spec fn path_outcome(
    trimmed: Seq<char>,
    extension: Option<Seq<char>>,
    lower_extension: Seq<char>,
    allowed: Seq<Seq<char>>,
    limit: usize,
) -> Result<Seq<char>, Seq<char>> {
    if trimmed.len() == 0 {
        Err("File path cannot be empty"@)
    } else if byte_len(trimmed) > limit {
        Err(too_long("File path"@, limit))
    } else if extension is None {
        Err("File must have a valid extension"@)
    } else if !extension_allowed(allowed, lower_extension) {
        Err("File extension '"@ + extension->0 + "' is not allowed"@)
    } else if is_substring(".."@, trimmed) || is_substring("~"@, trimmed) {
        Err("Path traversal is not allowed"@)
    } else {
        Ok(trimmed)
    }
}

/// `r` is the result that stands for `outcome`: the accepted text, or a
/// validation error with the outcome's message.
pub open spec fn reports(r: AppResult<String>, outcome: Result<Seq<char>, Seq<char>>) -> bool {
    match outcome {
        Ok(text) => r matches Ok(s) && s@ == text,
        Err(message) => r matches Err(e) && e.is(ErrorKind::Validation, message),
    }
}

/// Trusted: `Path::extension` and `OsStr::to_str`, the part of the file name
/// after its last dot, if the platform finds one. What counts as a file
/// name depends on the platform's separators, so nothing is promised here.
#[verifier::external_body]
fn path_extension(path: &str) -> (extension: Option<String>) {
    std::path::Path::new(path).extension().and_then(|e| e.to_str()).map(|e| e.to_string())
}

/// The lowercase form of an extension, if there is one.
pub open spec fn lower_extension_of(extension: Option<Seq<char>>) -> Seq<char> {
    match extension {
        Some(e) => lowercased(e),
        None => Seq::empty(),
    }
}

/// Whether the pattern engine finds the pattern in a text; `None` when the
/// pattern is not one the engine accepts.
pub uninterp spec fn pattern_matches(pattern: Seq<char>, text: Seq<char>) -> Option<bool>;

/// Trusted: `regex::Regex::new` and `Regex::is_match`. The result is named,
/// not described: it is the regular-expression engine's answer for this
/// pattern and text.
#[verifier::external_body]
fn is_match(pattern: &str, text: &str) -> (found: Option<bool>)
    ensures
        found == pattern_matches(pattern@, text@),
{
    regex::Regex::new(pattern).ok().map(|re| re.is_match(text))
}

/// What the JSON parser objects to in a text; `None` when the text is JSON.
pub uninterp spec fn json_fault(text: Seq<char>) -> Option<Seq<char>>;

/// Trusted: `serde_json::from_str` into a `serde_json::Value`, and the
/// `Display` text of its error. The result is named, not described.
#[verifier::external_body]
fn parse_fault(text: &str) -> (fault: Option<String>)
    ensures
        match json_fault(text@) {
            Some(message) => fault matches Some(f) && f@ == message,
            None => fault is None,
        },
{
    serde_json::from_str::<serde_json::Value>(text).err().map(|e| e.to_string())
}

/// Persona names: letters, digits, whitespace, hyphens and underscores.
pub const PERSONA_NAME_PATTERN: &'static str = "^[a-zA-Z0-9\\s\\-_]+$";

/// Keys of model services: letters, digits, hyphens, underscores and dots.
pub const API_KEY_PATTERN: &'static str = "^[a-zA-Z0-9\\-_.]+$";

/// Addresses: `http` or `https`, a host, and no whitespace.
pub const URL_PATTERN: &'static str = "^https?://[^\\s/$.?#].[^\\s]*$";

/// Mail addresses: a local part, a domain, and a top-level domain of two or
/// more letters.
pub const EMAIL_PATTERN: &'static str = "^[a-zA-Z0-9._%+-]+@[a-zA-Z0-9.-]+\\.[a-zA-Z]{2,}$";

/// Identifiers in the 8-4-4-4-12 hexadecimal form.
pub const UUID_PATTERN: &'static str =
    "^[0-9a-fA-F]{8}-[0-9a-fA-F]{4}-[0-9a-fA-F]{4}-[0-9a-fA-F]{4}-[0-9a-fA-F]{12}$";

/// The outcome of checking a trimmed text against a format: it must not be
/// empty, not be longer than the limit if there is one, and the pattern
/// engine must have found the format in it. The accepted text is `accepted`.
pub open spec fn format_outcome(
    trimmed: Seq<char>,
    limit: Option<usize>,
    well_formed: Option<bool>,
    accepted: Seq<char>,
    what: Seq<char>,
    format_message: Seq<char>,
) -> Result<Seq<char>, Seq<char>> {
    if trimmed.len() == 0 {
        Err(what + " cannot be empty"@)
    } else if limit is Some && byte_len(trimmed) > limit->0 {
        Err(too_long(what, limit->0))
    } else if well_formed != Some(true) {
        Err(format_message)
    } else {
        Ok(accepted)
    }
}

/// The outcome of checking trimmed JSON text, given the parser's objection.
pub open spec fn json_outcome(trimmed: Seq<char>, fault: Option<Seq<char>>) -> Result<
    Seq<char>,
    Seq<char>,
> {
    if trimmed.len() == 0 {
        Err("JSON cannot be empty"@)
    } else if fault is Some {
        Err("Invalid JSON format: "@ + fault->0)
    } else {
        Ok(trimmed)
    }
}

/// Whether a lowercased path begins with a protected system directory.
pub open spec fn is_protected(lower: Seq<char>) -> bool {
    ||| crate::text::is_prefix("/etc"@, lower)
    ||| crate::text::is_prefix("/sys"@, lower)
    ||| crate::text::is_prefix("/proc"@, lower)
    ||| crate::text::is_prefix("c:\\windows"@, lower)
    ||| crate::text::is_prefix("c:\\program files"@, lower)
}

/// Trusted: `Path::is_absolute`, whether the path is absolute on this
/// platform.
#[verifier::external_body]
fn path_is_absolute(path: &str) -> (absolute: bool) {
    std::path::Path::new(path).is_absolute()
}

/// Refuses absolute paths into protected system directories; relative paths
/// pass. `lower` is the lowercase form of the path.
pub fn check_system_directory(is_absolute: bool, lower: &str) -> (r: Result<(), String>)
    ensures
        r is Err <==> is_absolute && is_protected(lower@),
        r matches Err(message) ==> message@ == "Access to system directories is not allowed"@,
{
    if !is_absolute {
        return Ok(());
    }
    if crate::text::starts_with(lower, "/etc") || crate::text::starts_with(lower, "/sys")
        || crate::text::starts_with(lower, "/proc") || crate::text::starts_with(
        lower,
        "c:\\windows",
    ) || crate::text::starts_with(lower, "c:\\program files") {
        return Err(String::from_str("Access to system directories is not allowed"));
    }
    Ok(())
}

/// Refuses absolute paths into protected system directories of this
/// platform; relative paths pass.
pub fn check_system_directory_access(path: &str) -> (r: Result<(), String>)
    ensures
        r is Err ==> is_protected(lowercased(path@)),
        r matches Err(message) ==> message@ == "Access to system directories is not allowed"@,
{
    let lower = to_lowercase(path);
    check_system_directory(path_is_absolute(path), lower.as_str())
}

/// The outcome of the two stages of a secure check, from the outcome of the
/// first and from whether the platform takes the accepted path as absolute:
/// a refusal of the first stage is reported with its reason, an absolute
/// path into a protected directory is refused, and any other path is
/// accepted as it was trimmed.
pub open spec fn secure_outcome(checked: Result<Seq<char>, Seq<char>>, absolute: bool) -> Result<
    Seq<char>,
    Seq<char>,
> {
    match checked {
        Err(message) => Err("Invalid file path: "@ + ("Validation error: "@ + message)),
        Ok(accepted) => if absolute && is_protected(lowercased(accepted)) {
            Err("Access to system directories is not allowed"@)
        } else {
            Ok(accepted)
        },
    }
}

/// `r` is the result that stands for `outcome`, text for text.
pub open spec fn says(r: Result<String, String>, outcome: Result<Seq<char>, Seq<char>>) -> bool {
    match outcome {
        Ok(text) => r matches Ok(s) && s@ == text,
        Err(message) => r matches Err(m) && m@ == message,
    }
}

/// Checks a file path in two stages: the rules of
/// [`InputValidator::validate_file_path`] with the default validator, whose
/// message is prefixed with `Invalid file path: `, then
/// [`check_system_directory_access`]. The result is [`secure_outcome`] for
/// the extension and the absoluteness that the platform finds in the path.
pub fn validate_file_path_secure(path: &str) -> (r: Result<String, String>)
    ensures
        exists|extension: Option<Seq<char>>, absolute: bool|
            says(
                r,
                #[trigger] secure_outcome(
                    path_outcome(
                        trimmed(path@),
                        extension,
                        lower_extension_of(extension),
                        default_extensions(),
                        ValidationLimits::spec_default().file_path,
                    ),
                    absolute,
                ),
            ),
        r matches Ok(accepted) ==> accepted@ == trimmed(path@),
{
    let validator = InputValidator::default();
    let checked = validator.validate_file_path(path);
    let ghost extension = choose|extension: Option<Seq<char>>|
        reports(
            checked,
            #[trigger] path_outcome(
                trimmed(path@),
                extension,
                lower_extension_of(extension),
                crate::config::texts(validator.extensions()),
                validator.limits().file_path,
            ),
        );
    let ghost first = path_outcome(
        trimmed(path@),
        extension,
        lower_extension_of(extension),
        default_extensions(),
        ValidationLimits::spec_default().file_path,
    );
    assert(reports(checked, first));
    let validated = match checked {
        Ok(validated) => validated,
        Err(e) => {
            let detail = e.technical_message();
            let text = join2("Invalid file path: ", detail.as_str());
            assert(says(Err::<String, String>(text), secure_outcome(first, false)));
            return Err(text);
        },
    };
    match check_system_directory_access(validated.as_str()) {
        Ok(_) => {
            assert(says(Ok::<String, String>(validated), secure_outcome(first, false)));
            Ok(validated)
        },
        Err(message) => {
            assert(says(Err::<String, String>(message), secure_outcome(first, true)));
            Err(message)
        },
    }
}

/// Validator of outside input, with limits and a whitelist of file extensions.
#[derive(Debug, Clone)]
pub struct InputValidator {
    allowed_extensions: Vec<String>,
    max_lengths: ValidationLimits,
}

/// The file extensions accepted by default: documents, code and images.
pub open spec fn default_extensions() -> Seq<Seq<char>> {
    seq![
        "txt"@,
        "md"@,
        "json"@,
        "yaml"@,
        "yml"@,
        "rs"@,
        "js"@,
        "ts"@,
        "py"@,
        "html"@,
        "css"@,
        "svelte"@,
        "png"@,
        "jpg"@,
        "jpeg"@,
        "gif"@,
        "webp"@,
    ]
}

fn default_extension_list() -> (list: Vec<String>)
    ensures
        crate::config::texts(list@) == default_extensions(),
{
    let mut list: Vec<String> = Vec::new();
    list.push(String::from_str("txt"));
    list.push(String::from_str("md"));
    list.push(String::from_str("json"));
    list.push(String::from_str("yaml"));
    list.push(String::from_str("yml"));
    list.push(String::from_str("rs"));
    list.push(String::from_str("js"));
    list.push(String::from_str("ts"));
    list.push(String::from_str("py"));
    list.push(String::from_str("html"));
    list.push(String::from_str("css"));
    list.push(String::from_str("svelte"));
    list.push(String::from_str("png"));
    list.push(String::from_str("jpg"));
    list.push(String::from_str("jpeg"));
    list.push(String::from_str("gif"));
    list.push(String::from_str("webp"));
    assert(crate::config::texts(list@) =~= default_extensions());
    list
}

impl Default for InputValidator {
    /// The default limits and the default extensions.
    fn default() -> (v: Self)
        ensures
            v.limits() == ValidationLimits::spec_default(),
            crate::config::texts(v.extensions()) == default_extensions(),
    {
        InputValidator {
            allowed_extensions: default_extension_list(),
            max_lengths: ValidationLimits {
                conversation_title: 200,
                message_content: 100_000,
                persona_name: 50,
                persona_description: 500,
                system_prompt: 10_000,
                api_key: 200,
                file_path: 1000,
                url: 2000,
            },
        }
    }
}

/// Whether a lowercased text holds a script tag, a script URL or an event
/// handler.
pub fn contains_xss_patterns(input_lower: &str) -> (found: bool)
    ensures
        found == has_xss_pattern(input_lower@),
{
    contains(input_lower, "<script") || contains(input_lower, "</script>") || contains(
        input_lower,
        "javascript:",
    ) || contains(input_lower, "vbscript:") || contains(input_lower, "onload=") || contains(
        input_lower,
        "onerror=",
    ) || contains(input_lower, "onclick=") || contains(input_lower, "onmouseover=")
}

/// Whether a lowercased text holds a fragment of a statement that changes or
/// combines tables.
pub fn contains_sql_injection_patterns(input_lower: &str) -> (found: bool)
    ensures
        found == has_sql_pattern(input_lower@),
{
    contains(input_lower, "drop table") || contains(input_lower, "insert into") || contains(
        input_lower,
        "delete from",
    ) || contains(input_lower, "update set") || contains(input_lower, "union select")
}

/// Whether a lowercased text holds a quote, a statement separator or a
/// comment marker.
pub fn contains_dangerous_special_chars(input_lower: &str) -> (found: bool)
    ensures
        found == has_dangerous_special(input_lower@),
{
    contains(input_lower, "'") || contains(input_lower, "\"") || contains(input_lower, ";")
        || contains(input_lower, "--") || contains(input_lower, "/*") || contains(
        input_lower,
        "*/",
    )
}

fn is_control(c: char) -> (yes: bool)
    ensures
        yes == is_control_char(c),
{
    let code: u32 = c as u32;
    code <= 0x1f || (0x7f <= code && code <= 0x9f)
}

fn sanitize_content(content: &str) -> (clean: String)
    ensures
        clean@ == sanitized_content(content@),
{
    let mut clean = String::new();
    for c in it: content.chars()
        invariant
            it.seq() == content@,
            clean@ == sanitized_content(content@.take(it.index() as int)),
    {
        proof {
            let next = content@.take(it.index() + 1);
            assert(next.drop_last() =~= content@.take(it.index() as int));
            assert(next.last() == c);
        }
        if !is_control(c) || c == '\n' || c == '\r' || c == '\t' {
            push_char(&mut clean, c);
        }
    }
    assert(content@.take(content@.len() as int) =~= content@);
    clean
}

fn sanitize_prompt(prompt: &str) -> (clean: String)
    ensures
        clean@ == sanitized_prompt(prompt@),
{
    let mut clean = String::new();
    for c in it: prompt.chars()
        invariant
            it.seq() == prompt@,
            clean@ == sanitized_prompt(prompt@.take(it.index() as int)),
    {
        proof {
            let next = prompt@.take(it.index() + 1);
            assert(next.drop_last() =~= prompt@.take(it.index() as int));
            assert(next.last() == c);
        }
        if c != '\0' {
            push_char(&mut clean, c);
        }
    }
    assert(prompt@.take(prompt@.len() as int) =~= prompt@);
    clean
}

impl InputValidator {
    /// The limits in force.
    pub closed spec fn limits(&self) -> ValidationLimits {
        self.max_lengths
    }

    /// The allowed file extensions.
    pub closed spec fn extensions(&self) -> Seq<String> {
        self.allowed_extensions@
    }

    /// A validator with the given limits and the default extensions.
    pub fn new(limits: ValidationLimits) -> (v: Self)
        ensures
            v.limits() == limits,
            crate::config::texts(v.extensions()) == default_extensions(),
    {
        InputValidator { allowed_extensions: default_extension_list(), max_lengths: limits }
    }

    /// Whether the lowercase form of a text holds anything usable for
    /// injection.
    pub fn contains_dangerous_chars(&self, input: &str) -> (found: bool)
        ensures
            found == is_dangerous(lowercased(input@)),
    {
        let lower = to_lowercase(input);
        Self::lower_is_dangerous(lower.as_str())
    }

    /// Whether a lowercased text holds anything usable for injection.
    pub fn lower_is_dangerous(input_lower: &str) -> (found: bool)
        ensures
            found == is_dangerous(input_lower@),
    {
        contains_xss_patterns(input_lower) || contains_sql_injection_patterns(input_lower)
            || contains_dangerous_special_chars(input_lower)
    }

    /// Checks a trimmed conversation title, given its lowercase form.
    pub fn check_conversation_title(&self, trimmed_title: &str, lower: &str) -> (r: AppResult<
        String,
    >)
        ensures
            reports(r, title_outcome(trimmed_title@, lower@, self.limits().conversation_title)),
    {
        if trimmed_title.is_empty() {
            return Err(AppError::validation("Conversation title cannot be empty"));
        }
        if byte_length(trimmed_title) > self.max_lengths.conversation_title {
            return Err(too_long_error("Conversation title", self.max_lengths.conversation_title));
        }
        if Self::lower_is_dangerous(lower) {
            return Err(AppError::validation("Conversation title contains invalid characters"));
        }
        Ok(String::from_str(trimmed_title))
    }

    /// Trims a conversation title and accepts it if it is not empty, not
    /// longer than the limit and free of anything usable for injection.
    pub fn validate_conversation_title(&self, title: &str) -> (r: AppResult<String>)
        ensures
            reports(
                r,
                title_outcome(
                    trimmed(title@),
                    lowercased(trimmed(title@)),
                    self.limits().conversation_title,
                ),
            ),
    {
        let t = trim(title);
        let lower = to_lowercase(t);
        self.check_conversation_title(t, lower.as_str())
    }

    /// Checks message content, given its trimmed form.
    pub fn check_message_content(&self, content: &str, trimmed_content: &str) -> (r: AppResult<
        String,
    >)
        ensures
            reports(
                r,
                content_outcome(content@, trimmed_content@, self.limits().message_content),
            ),
    {
        if trimmed_content.is_empty() {
            return Err(AppError::validation("Message content cannot be empty"));
        }
        if byte_length(content) > self.max_lengths.message_content {
            return Err(too_long_error("Message content", self.max_lengths.message_content));
        }
        Ok(sanitize_content(content))
    }

    /// Accepts message content that is not blank and not longer than the
    /// limit, and returns it without control characters other than line
    /// feed, carriage return and tab.
    pub fn validate_message_content(&self, content: &str) -> (r: AppResult<String>)
        ensures
            reports(
                r,
                content_outcome(content@, trimmed(content@), self.limits().message_content),
            ),
    {
        self.check_message_content(content, trim(content))
    }

    /// Checks a trimmed persona description, given its lowercase form.
    pub fn check_persona_description(&self, trimmed_description: &str, lower: &str) -> (r:
        AppResult<String>)
        ensures
            reports(
                r,
                description_outcome(
                    trimmed_description@,
                    lower@,
                    self.limits().persona_description,
                ),
            ),
    {
        if byte_length(trimmed_description) > self.max_lengths.persona_description {
            return Err(too_long_error("Persona description", self.max_lengths.persona_description));
        }
        if Self::lower_is_dangerous(lower) {
            return Err(AppError::validation("Persona description contains invalid characters"));
        }
        Ok(String::from_str(trimmed_description))
    }

    /// Trims a persona description and accepts it if it is not longer than
    /// the limit and free of anything usable for injection.
    pub fn validate_persona_description(&self, description: &str) -> (r: AppResult<String>)
        ensures
            reports(
                r,
                description_outcome(
                    trimmed(description@),
                    lowercased(trimmed(description@)),
                    self.limits().persona_description,
                ),
            ),
    {
        let t = trim(description);
        let lower = to_lowercase(t);
        self.check_persona_description(t, lower.as_str())
    }

    /// Checks a system prompt, given its trimmed form.
    pub fn check_system_prompt(&self, prompt: &str, trimmed_prompt: &str) -> (r: AppResult<String>)
        ensures
            reports(r, prompt_outcome(prompt@, trimmed_prompt@, self.limits().system_prompt)),
    {
        if trimmed_prompt.is_empty() {
            return Err(AppError::validation("System prompt cannot be empty"));
        }
        if byte_length(prompt) > self.max_lengths.system_prompt {
            return Err(too_long_error("System prompt", self.max_lengths.system_prompt));
        }
        Ok(sanitize_prompt(prompt))
    }

    /// Accepts a system prompt that is not blank and not longer than the
    /// limit, and returns it without NUL characters.
    pub fn validate_system_prompt(&self, prompt: &str) -> (r: AppResult<String>)
        ensures
            reports(r, prompt_outcome(prompt@, trimmed(prompt@), self.limits().system_prompt)),
    {
        self.check_system_prompt(prompt, trim(prompt))
    }

    /// Whether a lowercased extension is on the whitelist.
    fn allows(&self, lower_extension: &str) -> (yes: bool)
        ensures
            yes == extension_allowed(crate::config::texts(self.extensions()), lower_extension@),
    {
        let ghost allowed = crate::config::texts(self.extensions());
        let mut i: usize = 0;
        while i < self.allowed_extensions.len()
            invariant
                i <= self.allowed_extensions.len(),
                allowed == crate::config::texts(self.extensions()),
                forall|k: int| 0 <= k < i ==> #[trigger] allowed[k] != lower_extension@,
            decreases self.allowed_extensions.len() - i,
        {
            assert(allowed[i as int] == self.extensions()[i as int]@);
            if str_eq(self.allowed_extensions[i].as_str(), lower_extension) {
                return true;
            }
            i += 1;
        }
        false
    }

    /// Checks a trimmed file path, given its extension and the extension's
    /// lowercase form.
    pub fn check_file_path(
        &self,
        trimmed_path: &str,
        extension: Option<&str>,
        lower_extension: &str,
    ) -> (r: AppResult<String>)
        ensures
            reports(
                r,
                path_outcome(
                    trimmed_path@,
                    match extension {
                        Some(e) => Some(e@),
                        None => None,
                    },
                    lower_extension@,
                    crate::config::texts(self.extensions()),
                    self.limits().file_path,
                ),
            ),
    {
        if trimmed_path.is_empty() {
            return Err(AppError::validation("File path cannot be empty"));
        }
        if byte_length(trimmed_path) > self.max_lengths.file_path {
            return Err(too_long_error("File path", self.max_lengths.file_path));
        }
        match extension {
            None => {
                return Err(AppError::validation("File must have a valid extension"));
            },
            Some(e) => {
                if !self.allows(lower_extension) {
                    let message = join3("File extension '", e, "' is not allowed");
                    return Err(AppError::Validation { message });
                }
            },
        }
        if contains(trimmed_path, "..") || contains(trimmed_path, "~") {
            return Err(AppError::validation("Path traversal is not allowed"));
        }
        Ok(String::from_str(trimmed_path))
    }

    /// Trims a file path and accepts it if it is not empty, not longer than
    /// the limit, has a whitelisted extension, and holds neither `..` nor `~`.
    /// The extension is the one that the platform finds in the path.
    pub fn validate_file_path(&self, path: &str) -> (r: AppResult<String>)
        ensures
            exists|extension: Option<Seq<char>>|
                reports(
                    r,
                    #[trigger] path_outcome(
                        trimmed(path@),
                        extension,
                        lower_extension_of(extension),
                        crate::config::texts(self.extensions()),
                        self.limits().file_path,
                    ),
                ),
    {
        let t = trim(path);
        match path_extension(t) {
            Some(extension) => {
                let lower = to_lowercase(extension.as_str());
                let r = self.check_file_path(t, Some(extension.as_str()), lower.as_str());
                assert(reports(
                    r,
                    path_outcome(
                        trimmed(path@),
                        Some(extension@),
                        lower_extension_of(Some(extension@)),
                        crate::config::texts(self.extensions()),
                        self.limits().file_path,
                    ),
                ));
                r
            },
            None => {
                let r = self.check_file_path(t, None, "");
                assert(reports(
                    r,
                    path_outcome(
                        trimmed(path@),
                        None,
                        lower_extension_of(None),
                        crate::config::texts(self.extensions()),
                        self.limits().file_path,
                    ),
                ));
                r
            },
        }
    }

    /// Checks a trimmed text against a format; see [`format_outcome`].
    fn check_format(
        trimmed_text: &str,
        limit: Option<usize>,
        well_formed: Option<bool>,
        accepted: String,
        what: &str,
        format_message: &str,
    ) -> (r: AppResult<String>)
        ensures
            reports(
                r,
                format_outcome(
                    trimmed_text@,
                    limit,
                    well_formed,
                    accepted@,
                    what@,
                    format_message@,
                ),
            ),
    {
        if trimmed_text.is_empty() {
            let message = join2(what, " cannot be empty");
            return Err(AppError::Validation { message });
        }
        match limit {
            Some(n) => {
                if byte_length(trimmed_text) > n {
                    return Err(too_long_error(what, n));
                }
            },
            None => {},
        }
        match well_formed {
            Some(true) => Ok(accepted),
            _ => Err(AppError::validation(format_message)),
        }
    }

    /// Checks a trimmed persona name, given whether the pattern engine found
    /// the format of names in it.
    pub fn check_persona_name(&self, trimmed_name: &str, well_formed: Option<bool>) -> (r:
        AppResult<String>)
        ensures
            reports(
                r,
                format_outcome(
                    trimmed_name@,
                    Some(self.limits().persona_name),
                    well_formed,
                    trimmed_name@,
                    "Persona name"@,
                    "Persona name can only contain letters, numbers, spaces, hyphens, and underscores"@,
                ),
            ),
    {
        Self::check_format(
            trimmed_name,
            Some(self.max_lengths.persona_name),
            well_formed,
            String::from_str(trimmed_name),
            "Persona name",
            "Persona name can only contain letters, numbers, spaces, hyphens, and underscores",
        )
    }

    /// Trims a persona name and accepts it if it is not empty, not longer
    /// than the limit, and made of letters, digits, whitespace, hyphens and
    /// underscores.
    pub fn validate_persona_name(&self, name: &str) -> (r: AppResult<String>)
        ensures
            reports(
                r,
                format_outcome(
                    trimmed(name@),
                    Some(self.limits().persona_name),
                    pattern_matches(PERSONA_NAME_PATTERN@, trimmed(name@)),
                    trimmed(name@),
                    "Persona name"@,
                    "Persona name can only contain letters, numbers, spaces, hyphens, and underscores"@,
                ),
            ),
    {
        let t = trim(name);
        self.check_persona_name(t, is_match(PERSONA_NAME_PATTERN, t))
    }

    /// Checks a trimmed key of a model service, given whether the pattern
    /// engine found the format of keys in it.
    pub fn check_api_key(&self, trimmed_key: &str, well_formed: Option<bool>) -> (r: AppResult<
        String,
    >)
        ensures
            reports(
                r,
                format_outcome(
                    trimmed_key@,
                    Some(self.limits().api_key),
                    well_formed,
                    trimmed_key@,
                    "API key"@,
                    "API key contains invalid characters"@,
                ),
            ),
    {
        Self::check_format(
            trimmed_key,
            Some(self.max_lengths.api_key),
            well_formed,
            String::from_str(trimmed_key),
            "API key",
            "API key contains invalid characters",
        )
    }

    /// Trims a key of a model service and accepts it if it is not empty, not
    /// longer than the limit, and made of letters, digits, hyphens,
    /// underscores and dots.
    pub fn validate_api_key(&self, api_key: &str) -> (r: AppResult<String>)
        ensures
            reports(
                r,
                format_outcome(
                    trimmed(api_key@),
                    Some(self.limits().api_key),
                    pattern_matches(API_KEY_PATTERN@, trimmed(api_key@)),
                    trimmed(api_key@),
                    "API key"@,
                    "API key contains invalid characters"@,
                ),
            ),
    {
        let t = trim(api_key);
        self.check_api_key(t, is_match(API_KEY_PATTERN, t))
    }

    /// Checks a trimmed address, given whether the pattern engine found the
    /// format of addresses in it.
    pub fn check_url(&self, trimmed_url: &str, well_formed: Option<bool>) -> (r: AppResult<String>)
        ensures
            reports(
                r,
                format_outcome(
                    trimmed_url@,
                    Some(self.limits().url),
                    well_formed,
                    trimmed_url@,
                    "URL"@,
                    "Invalid URL format"@,
                ),
            ),
    {
        Self::check_format(
            trimmed_url,
            Some(self.max_lengths.url),
            well_formed,
            String::from_str(trimmed_url),
            "URL",
            "Invalid URL format",
        )
    }

    /// Trims an address and accepts it if it is not empty, not longer than
    /// the limit, and an `http` or `https` address.
    pub fn validate_url(&self, url: &str) -> (r: AppResult<String>)
        ensures
            reports(
                r,
                format_outcome(
                    trimmed(url@),
                    Some(self.limits().url),
                    pattern_matches(URL_PATTERN@, trimmed(url@)),
                    trimmed(url@),
                    "URL"@,
                    "Invalid URL format"@,
                ),
            ),
    {
        let t = trim(url);
        self.check_url(t, is_match(URL_PATTERN, t))
    }

    /// Checks a trimmed mail address, given whether the pattern engine found
    /// the format of mail addresses in it and the lowercase form to return.
    pub fn check_email(&self, trimmed_email: &str, well_formed: Option<bool>, lower: String) -> (r:
        AppResult<String>)
        ensures
            reports(
                r,
                format_outcome(
                    trimmed_email@,
                    None,
                    well_formed,
                    lower@,
                    "Email"@,
                    "Invalid email format"@,
                ),
            ),
    {
        Self::check_format(
            trimmed_email,
            None,
            well_formed,
            lower,
            "Email",
            "Invalid email format",
        )
    }

    /// Trims a mail address and, if it is one, returns it in lowercase.
    pub fn validate_email(&self, email: &str) -> (r: AppResult<String>)
        ensures
            reports(
                r,
                format_outcome(
                    trimmed(email@),
                    None,
                    pattern_matches(EMAIL_PATTERN@, trimmed(email@)),
                    lowercased(trimmed(email@)),
                    "Email"@,
                    "Invalid email format"@,
                ),
            ),
    {
        let t = trim(email);
        self.check_email(t, is_match(EMAIL_PATTERN, t), to_lowercase(t))
    }

    /// Checks a trimmed identifier, given whether the pattern engine found
    /// the 8-4-4-4-12 form in it and the lowercase form to return.
    pub fn check_uuid(&self, trimmed_uuid: &str, well_formed: Option<bool>, lower: String) -> (r:
        AppResult<String>)
        ensures
            reports(
                r,
                format_outcome(
                    trimmed_uuid@,
                    None,
                    well_formed,
                    lower@,
                    "UUID"@,
                    "Invalid UUID format"@,
                ),
            ),
    {
        Self::check_format(trimmed_uuid, None, well_formed, lower, "UUID", "Invalid UUID format")
    }

    /// Trims an identifier and, if it has the 8-4-4-4-12 hexadecimal form,
    /// returns it in lowercase.
    pub fn validate_uuid(&self, uuid: &str) -> (r: AppResult<String>)
        ensures
            reports(
                r,
                format_outcome(
                    trimmed(uuid@),
                    None,
                    pattern_matches(UUID_PATTERN@, trimmed(uuid@)),
                    lowercased(trimmed(uuid@)),
                    "UUID"@,
                    "Invalid UUID format"@,
                ),
            ),
    {
        let t = trim(uuid);
        self.check_uuid(t, is_match(UUID_PATTERN, t), to_lowercase(t))
    }

    /// Checks trimmed JSON text, given the parser's objection to it.
    pub fn check_json(&self, trimmed_json: &str, fault: Option<String>) -> (r: AppResult<String>)
        ensures
            reports(
                r,
                json_outcome(
                    trimmed_json@,
                    match fault {
                        Some(f) => Some(f@),
                        None => None,
                    },
                ),
            ),
    {
        if trimmed_json.is_empty() {
            return Err(AppError::validation("JSON cannot be empty"));
        }
        match fault {
            Some(f) => {
                let message = join2("Invalid JSON format: ", f.as_str());
                Err(AppError::Validation { message })
            },
            None => Ok(String::from_str(trimmed_json)),
        }
    }

    /// Trims JSON text and accepts it if the parser does.
    pub fn validate_json(&self, json_str: &str) -> (r: AppResult<String>)
        ensures
            reports(r, json_outcome(trimmed(json_str@), json_fault(trimmed(json_str@)))),
    {
        let t = trim(json_str);
        self.check_json(t, parse_fault(t))
    }

    /// Accepts an integer inside `min..=max`; otherwise the error names the
    /// field and the range.
    pub fn validate_integer_range(&self, value: i64, min: i64, max: i64, field_name: &str) -> (r:
        AppResult<i64>)
        ensures
            match range_outcome(value, min, max, field_name@) {
                Ok(v) => r == Ok::<i64, AppError>(v),
                Err(message) => r matches Err(e) && e.is(ErrorKind::Validation, message),
            },
    {
        if value < min || value > max {
            let mut message = join2(field_name, " must be between ");
            push_signed_decimal(&mut message, min);
            push_text(&mut message, " and ");
            push_signed_decimal(&mut message, max);
            return Err(AppError::Validation { message });
        }
        Ok(value)
    }

    /// Checks a role that was trimmed and lowercased.
    pub fn check_message_role(&self, normal: String) -> (r: AppResult<String>)
        ensures
            reports(r, role_outcome(normal@)),
    {
        if str_eq(normal.as_str(), "user") || str_eq(normal.as_str(), "assistant") || str_eq(
            normal.as_str(),
            "system",
        ) {
            Ok(normal)
        } else {
            Err(AppError::validation("Invalid message role. Must be one of: user, assistant, system"))
        }
    }

    /// Trims and lowercases a role and accepts `user`, `assistant` and
    /// `system`.
    pub fn validate_message_role(&self, role: &str) -> (r: AppResult<String>)
        ensures
            reports(r, role_outcome(lowercased(trimmed(role@)))),
    {
        let normal = to_lowercase(trim(role));
        self.check_message_role(normal)
    }
}

/// A validator with the default limits and extensions.
pub fn get_validator() -> (v: InputValidator)
    ensures
        v.limits() == ValidationLimits::spec_default(),
        crate::config::texts(v.extensions()) == default_extensions(),
{
    InputValidator::default()
}

} // verus!
