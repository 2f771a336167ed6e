//! The refresh after a theme change: a nudge to those who watch the accent
//! colour, and a pair of messages to the windows of allow-listed processes.
//!
//! The refresh is advisory. The theme is already in the store when it
//! starts, and a window that cannot be reached is passed over.

use vstd::prelude::*;
use vstd::string::StrSliceExecFns;
use crate::regkey::after_writes;
use crate::regkey::lemma_two_writes;
use crate::regkey::StoreValue;
use crate::regkey::StoreWrite;

verus! {

/// A message to a top-level window.
#[derive(Debug, Clone, Copy, PartialEq, Eq, Structural)]
pub enum WindowMessage {
    /// A system setting changed. The message names the colour set as the
    /// area of the change.
    SettingChange,
    /// The visual theme changed.
    ThemeChanged,
}

/// How a message is handed to a window. The sender does not wait for an
/// answer beyond the timeout, and a message that does not arrive is given
/// up.
#[derive(Debug, Clone, Copy, PartialEq, Eq, Structural)]
pub struct Delivery {
    /// The time a window is given to take the message, in milliseconds.
    pub timeout_millis: u32,
    /// The timeout is not enforced on a window that is still handling
    /// messages.
    pub unbounded_while_responsive: bool,
}

/// What a refresh does to the accent colour that it read.
#[derive(Debug, Clone, Copy, PartialEq, Eq, Structural)]
pub enum AccentChange {
    /// The colour one step off.
    Nudge,
    /// The colour as it was read.
    Restore,
}

/// One step of applying a theme. The driver performs the steps of a plan
/// one after the other, and none before the one in front of it is done.
#[derive(Debug, Clone, Copy, PartialEq, Eq, Structural)]
pub enum Step {
    /// Put a number into a value of the store.
    Write(StoreWrite),
    /// Read the accent colour from the store and keep it.
    ReadAccent,
    /// Write the accent colour that was read, changed as the step says.
    WriteAccent(AccentChange),
    /// Do nothing for so many milliseconds.
    Pause { millis: u64 },
    /// Send each top-level window its [`window_messages`].
    Broadcast,
}

/// The pause between changing the accent colour and restoring it, in
/// milliseconds.
pub const ACCENT_PAUSE_MILLIS: u64 = 10;

/// The time a window is given to take a message, in milliseconds.
pub const MESSAGE_TIMEOUT_MILLIS: u32 = 200;

/// The character that ends a text in a buffer of the operating system.
pub const NUL: char = '\0';

/// A character that parts the components of a path.
pub open spec fn is_separator(c: char) -> bool {
    c == '\\' || c == '/'
}

/// The position of the first NUL of `path` at or after `from`, or the length
/// of `path` where there is none.
pub open spec fn text_end(path: Seq<char>, from: int) -> int
    decreases path.len() - from,
{
    if from < 0 || from >= path.len() {
        path.len() as int
    } else if path[from] == NUL {
        from
    } else {
        text_end(path, from + 1)
    }
}

/// The position after the last separator of `path` before `end`, or zero
/// where there is none.
pub open spec fn name_start(path: Seq<char>, end: int) -> int
    decreases end,
{
    if end <= 0 {
        0
    } else if is_separator(path[end - 1]) {
        end
    } else {
        name_start(path, end - 1)
    }
}

/// The name of the process whose image has this path: of the text up to the
/// first NUL, what follows the last separator.
pub open spec fn process_name_text(image_path: Seq<char>) -> Seq<char> {
    let end = text_end(image_path, 0);
    image_path.subrange(name_start(image_path, end), end)
}

/// The names of the processes whose windows are told of a theme change.
pub open spec fn allow_list_texts() -> Seq<Seq<char>> {
    seq!["explorer.exe"@]
}

/// A process of this name is on the allow-list: the name is an entry of the
/// list.
pub open spec fn allowed(process_name: Seq<char>) -> bool {
    exists|k: int| 0 <= k < allow_list_texts().len() && #[trigger] allow_list_texts()[k] == process_name
}

/// The accent colour that differs from `accent` by one step: the next
/// number, and zero after the largest.
pub open spec fn nudged(accent: u32) -> u32 {
    if accent == u32::MAX {
        0
    } else {
        (accent + 1) as u32
    }
}

/// The write that a change of the accent colour comes to, where `accent`
/// was read.
pub open spec fn accent_write(change: AccentChange, accent: u32) -> StoreWrite {
    match change {
        AccentChange::Nudge => StoreWrite { value: StoreValue::AccentColor, data: nudged(accent) },
        AccentChange::Restore => StoreWrite { value: StoreValue::AccentColor, data: accent },
    }
}

/// The writes of a refresh that read `accent`, in their order.
pub open spec fn pulse_writes(accent: u32) -> Seq<StoreWrite> {
    seq![accent_write(AccentChange::Nudge, accent), accent_write(AccentChange::Restore, accent)]
}

/// The steps of a refresh, in their order.
pub open spec fn refresh_plan() -> Seq<Step> {
    seq![
        Step::ReadAccent,
        Step::WriteAccent(AccentChange::Nudge),
        Step::Pause { millis: ACCENT_PAUSE_MILLIS },
        Step::WriteAccent(AccentChange::Restore),
        Step::Broadcast,
    ]
}

/// The messages that a window of an allow-listed process gets, in order.
pub open spec fn refresh_messages() -> Seq<WindowMessage> {
    seq![WindowMessage::SettingChange, WindowMessage::ThemeChanged]
}

/// The messages for a window whose process has an image of this path, or
/// none.
pub open spec fn messages_for(image_path: Option<Seq<char>>) -> Seq<WindowMessage> {
    match image_path {
        Some(path) => if allowed(process_name_text(path)) {
            refresh_messages()
        } else {
            Seq::empty()
        },
        None => Seq::empty(),
    }
}

impl WindowMessage {
    /// The area that the message names, where it names one.
    pub open spec fn area_text(self) -> Option<Seq<char>> {
        match self {
            WindowMessage::SettingChange => Some("ImmersiveColorSet"@),
            WindowMessage::ThemeChanged => None,
        }
    }

    /// How the message is delivered: every message has the same timeout,
    /// which is not enforced on a window that is still handling messages.
    pub open spec fn delivery_rule(self) -> Delivery {
        Delivery { timeout_millis: MESSAGE_TIMEOUT_MILLIS, unbounded_while_responsive: true }
    }

    /// Says how the message is delivered.
    pub fn delivery(&self) -> (delivery: Delivery)
        ensures
            delivery == self.delivery_rule(),
            delivery.timeout_millis == 200,
            delivery.unbounded_while_responsive,
    {
        Delivery { timeout_millis: MESSAGE_TIMEOUT_MILLIS, unbounded_while_responsive: true }
    }

    /// Gives the area that the message names, where it names one.
    pub fn area(&self) -> (area: Option<&'static str>)
        ensures
            area is Some == self.area_text() is Some,
            area matches Some(text) ==> Some(text@) == self.area_text(),
    {
        match self {
            WindowMessage::SettingChange => Some("ImmersiveColorSet"),
            WindowMessage::ThemeChanged => None,
        }
    }
}

impl AccentChange {
    /// Gives the write that this change comes to, where `accent` was read.
    pub fn write(self, accent: u32) -> (write: StoreWrite)
        ensures
            write == accent_write(self, accent),
            write.value == StoreValue::AccentColor,
            self == AccentChange::Nudge ==> write.data != accent,
            self == AccentChange::Restore ==> write.data == accent,
    {
        let data: u32 = match self {
            AccentChange::Nudge => if accent == u32::MAX {
                0
            } else {
                accent + 1
            },
            AccentChange::Restore => accent,
        };
        StoreWrite { value: StoreValue::AccentColor, data }
    }
}

/// The characters of a text, one by one.
pub fn characters(text: &str) -> (chars: Vec<char>)
    ensures
        chars@ == text@,
{
    let mut chars: Vec<char> = Vec::new();
    for c in it: text.chars()
        invariant
            chars@ == it.seq().take(it.index() as int),
            it.seq() == text@,
    {
        chars.push(c);
    }
    chars
}

/// Tells whether two texts are the same, character by character.
pub fn same_text(left: &str, right: &str) -> (same: bool)
    ensures
        same == (left@ == right@),
{
    let a = characters(left);
    let b = characters(right);
    if a.len() != b.len() {
        return false;
    }
    let mut k: usize = 0;
    while k < a.len()
        invariant
            a@ == left@,
            b@ == right@,
            a.len() == b.len(),
            k <= a.len(),
            forall|j: int| 0 <= j < k ==> a@[j] == b@[j],
        decreases a.len() - k,
    {
        if a[k] != b[k] {
            return false;
        }
        k += 1;
    }
    assert(a@ =~= b@);
    true
}

/// Tells whether a character parts the components of a path.
pub fn separates(c: char) -> (parts: bool)
    ensures
        parts == is_separator(c),
{
    c == '\\' || c == '/'
}

/// Cuts the name of a process out of the path of its image, as the
/// operating system hands it over in a buffer: the text ends at the first
/// NUL, and the name is what follows the last separator before that end.
pub fn process_name<'a>(image_path: &'a str) -> (name: &'a str)
    ensures
        name@ == process_name_text(image_path@),
{
    let chars = characters(image_path);
    let mut end: usize = 0;
    while end < chars.len() && chars[end] != NUL
        invariant
            end <= chars.len(),
            text_end(chars@, 0) == text_end(chars@, end as int),
        decreases chars.len() - end,
    {
        end += 1;
    }
    let mut start: usize = end;
    while start > 0 && !separates(chars[start - 1])
        invariant
            start <= end <= chars.len(),
            name_start(chars@, end as int) == name_start(chars@, start as int),
        decreases start,
    {
        start -= 1;
    }
    image_path.substring_char(start, end)
}

/// The allow-list: the names of the processes that are known to need the
/// messages.
pub fn allow_list() -> (list: Vec<&'static str>)
    ensures
        list@.len() == allow_list_texts().len(),
        forall|k: int| 0 <= k < list@.len() ==> (#[trigger] list@[k])@ == allow_list_texts()[k],
{
    vec!["explorer.exe"]
}

/// Tells whether the windows of a process of this name are told of a theme
/// change: whether the name is an entry of the allow-list.
pub fn is_allowed(process_name: &str) -> (listed: bool)
    ensures
        listed == allowed(process_name@),
{
    let list = allow_list();
    let mut k: usize = 0;
    while k < list.len()
        invariant
            k <= list.len(),
            list@.len() == allow_list_texts().len(),
            forall|j: int| 0 <= j < list@.len() ==> (#[trigger] list@[j])@ == allow_list_texts()[j],
            forall|j: int| 0 <= j < k ==> #[trigger] allow_list_texts()[j] != process_name@,
        decreases list.len() - k,
    {
        if same_text(process_name, list[k]) {
            assert(allow_list_texts()[k as int] == process_name@);
            return true;
        }
        k += 1;
    }
    false
}

/// Gives the steps of a refresh, in their order. The accent colour is read,
/// written one step off, and after a pause of [`ACCENT_PAUSE_MILLIS`]
/// written back as it was: those who watch the value see it change and come
/// back. Then the windows are told.
pub fn refresh_windows() -> (plan: Vec<Step>)
    ensures
        plan@ == refresh_plan(),
{
    vec![
        Step::ReadAccent,
        Step::WriteAccent(AccentChange::Nudge),
        Step::Pause { millis: ACCENT_PAUSE_MILLIS },
        Step::WriteAccent(AccentChange::Restore),
        Step::Broadcast,
    ]
}

/// Says which messages a top-level window gets, given the path of the image
/// of the process that owns it, or `None` where the path could not be had.
/// A window of an allow-listed process gets the two messages of a refresh;
/// any other window is passed over.
pub fn window_messages(image_path: Option<&str>) -> (messages: Vec<WindowMessage>)
    ensures
        messages@ == messages_for(
            match image_path {
                Some(path) => Some(path@),
                None => None,
            },
        ),
{
    match image_path {
        Some(path) => {
            if is_allowed(process_name(path)) {
                vec![WindowMessage::SettingChange, WindowMessage::ThemeChanged]
            } else {
                Vec::new()
            }
        },
        None => Vec::new(),
    }
}

/// The end of the text of a path lies within the path, at its first NUL or
/// at its end, and no NUL comes before it.
pub proof fn lemma_text_end(path: Seq<char>, from: int)
    requires
        0 <= from <= path.len(),
    ensures
        from <= text_end(path, from) <= path.len(),
        text_end(path, from) == path.len() || path[text_end(path, from)] == NUL,
        forall|i: int| from <= i < text_end(path, from) ==> path[i] != NUL,
    decreases path.len() - from,
{
    if from < path.len() && path[from] != NUL {
        lemma_text_end(path, from + 1);
    }
}

/// The start of a name lies at the beginning of the path or right after a
/// separator, and no separator comes between it and the end.
pub proof fn lemma_name_start(path: Seq<char>, end: int)
    requires
        0 <= end <= path.len(),
    ensures
        0 <= name_start(path, end) <= end,
        name_start(path, end) == 0 || is_separator(path[name_start(path, end) - 1]),
        forall|i: int| name_start(path, end) <= i < end ==> !is_separator(path[i]),
    decreases end,
{
    if end > 0 && !is_separator(path[end - 1]) {
        lemma_name_start(path, end - 1);
    }
}

/// The name of a process is the last component of the text of its image's
/// path: it holds no NUL and no separator, and a name on the allow-list is
/// never one that merely contains an entry of the list.
pub proof fn lemma_process_name_is_the_last_component(image_path: Seq<char>)
    ensures
        ({
            let end = text_end(image_path, 0);
            let start = name_start(image_path, end);
            let name = process_name_text(image_path);
            &&& 0 <= start <= end <= image_path.len()
            &&& name.len() == end - start
            &&& forall|i: int| 0 <= i < name.len() ==> name[i] == image_path[start + i]
            &&& forall|i: int| 0 <= i < name.len() ==> name[i] != NUL && !is_separator(name[i])
            &&& start == 0 || is_separator(image_path[start - 1])
            &&& end == image_path.len() || image_path[end] == NUL
        }),
        allowed(process_name_text(image_path)) <==> process_name_text(image_path)
            == "explorer.exe"@,
{
    lemma_text_end(image_path, 0);
    let end = text_end(image_path, 0);
    lemma_name_start(image_path, end);
    let name = process_name_text(image_path);
    if name == "explorer.exe"@ {
        assert(allow_list_texts()[0] == name);
    }
}

/// A refresh leaves the accent colour as it found it, and every other value
/// of the store too; between its two writes the colour is another one.
pub proof fn lemma_refresh_restores_accent(store: Map<StoreValue, u32>, accent: u32)
    requires
        store.contains_key(StoreValue::AccentColor),
        store[StoreValue::AccentColor] == accent,
    ensures
        after_writes(store, pulse_writes(accent)) == store,
        after_writes(store, pulse_writes(accent).take(1))[StoreValue::AccentColor] != accent,
{
    let writes = pulse_writes(accent);
    lemma_two_writes(store, writes);
    assert(after_writes(store, writes) =~= store);
    reveal_with_fuel(after_writes, 2);
    let first = writes.take(1);
    assert(first[0] == writes[0]);
    assert(first.drop_first().len() == 0);
}

} // verus!
