//! General facts about the machine: who is logged on, what the machine is
//! called, which processor and operating system it runs, how long it has
//! been up.

use vstd::prelude::*;
use vstd::utf8::*;
use crate::error::{
    spec_system_text, system_text, text_view, value_view, ReadoutError, ReadoutErrorView,
    SystemText,
};
use crate::product::{spec_machine, WindowsProductReadout};
use crate::query::{QueryRow, QueryValue, QueryValueView};
use crate::text::{
    decode_text, lemma_decoded_text_is_nul_free, lemma_decoded_text_without_last_is_nul_free,
    nul_free, pop_char, utf8_error_text, without_last,
};

verus! {

/// A system call that returns text in two phases: asked without a buffer it
/// reports the size it needs, asked again with a buffer of that size it fills
/// the buffer.
#[derive(Debug, Clone, Copy, PartialEq, Eq, Structural)]
pub enum TextCall {
    /// `GetUserNameA`: the length it reports counts the terminating null.
    UserName,
    /// `GetComputerNameExA` for the DNS host name: the length it reports
    /// leaves the terminating null out.
    ComputerName,
}

/// What the system answered in one phase of a [`TextCall`].
#[derive(Debug, PartialEq, Eq)]
pub enum TextEvent {
    /// The call without a buffer reported this size.
    SizeReported(u32),
    /// The call with a buffer succeeded; these are the bytes it wrote.
    Fetched(Vec<u8>),
    /// The call with a buffer reported failure.
    FetchFailed,
}

/// What to do next in a [`TextCall`].
#[derive(Debug, PartialEq, Eq)]
pub enum TextAction {
    /// Call again with a buffer of this capacity.
    Fetch(usize),
    /// The call is over, with this result.
    Finish(Result<String, ReadoutError>),
}

/// The mathematical value of a [`TextAction`].
pub enum TextActionView {
    Fetch(nat),
    Finish(Result<Seq<char>, ReadoutErrorView>),
}

impl View for TextAction {
    type V = TextActionView;

    open spec fn view(&self) -> TextActionView {
        match self {
            TextAction::Fetch(capacity) => TextActionView::Fetch(*capacity as nat),
            TextAction::Finish(result) => TextActionView::Finish(text_view(*result)),
        }
    }
}

impl TextCall {
    /// The name of the call, as failure messages quote it.
    pub open spec fn api_name(self) -> Seq<char> {
        match self {
            TextCall::UserName => "GetUserNameA"@,
            TextCall::ComputerName => "GetComputerNameExA"@,
        }
    }

    /// The message of the failure when the call itself fails.
    pub open spec fn failure_message(self) -> Seq<char> {
        "Call to \""@ + self.api_name() + "\" failed."@
    }

    /// The message of the failure when the bytes written are not text and
    /// the decoder says `detail` of them.
    pub open spec fn invalid_message(self, detail: Seq<char>) -> Seq<char> {
        "String from \""@ + self.api_name() + "\" was not valid UTF-8: "@ + detail
    }

    /// The text that the call stands for, of the text that its bytes
    /// decode to: all of it but the terminator, where the call counts one.
    pub open spec fn trimmed(self, decoded: Seq<char>) -> Seq<char> {
        match self {
            TextCall::UserName => without_last(decoded),
            TextCall::ComputerName => decoded,
        }
    }

    /// The text that valid `bytes` stand for.
    pub open spec fn text_of(self, bytes: Seq<u8>) -> Seq<char> {
        self.trimmed(decode_utf8(bytes))
    }

    /// The result of the call, of how decoding its bytes went: the text,
    /// trimmed, or the failure that quotes the decoder.
    pub open spec fn spec_finish(self, decoded: Result<String, String>) -> Result<
        Seq<char>,
        ReadoutErrorView,
    > {
        match decoded {
            Ok(text) => Ok(self.trimmed(text@)),
            Err(detail) => Err(ReadoutErrorView::Other(self.invalid_message(detail@))),
        }
    }

    /// The action that answers `event`.
    pub open spec fn spec_step(self, event: TextEvent) -> TextActionView {
        match event {
            TextEvent::SizeReported(size) => if size == 0 {
                TextActionView::Finish(Err(ReadoutErrorView::Other(self.failure_message())))
            } else {
                TextActionView::Fetch(size as nat)
            },
            TextEvent::FetchFailed => TextActionView::Finish(
                Err(ReadoutErrorView::Other(self.failure_message())),
            ),
            TextEvent::Fetched(bytes) => if valid_utf8(bytes@) {
                TextActionView::Finish(Ok(self.text_of(bytes@)))
            } else {
                TextActionView::Finish(
                    Err(ReadoutErrorView::Other(self.invalid_message(utf8_error_text(bytes@)))),
                )
            },
        }
    }

    fn name(self) -> (name: &'static str)
        ensures
            name@ == self.api_name(),
    {
        match self {
            TextCall::UserName => "GetUserNameA",
            TextCall::ComputerName => "GetComputerNameExA",
        }
    }

    fn failure(self) -> (error: ReadoutError)
        ensures
            error@ == ReadoutErrorView::Other(self.failure_message()),
    {
        let mut message = "Call to \"".to_owned();
        message.append(self.name());
        message.append("\" failed.");
        ReadoutError::Other(message)
    }

    /// Decides what follows `event`: a reported size of zero and a failed
    /// fetch end the call with a failure, any other size asks for a fetch
    /// into a buffer of that size, and fetched bytes end the call with the
    /// text they encode or with the decoder's complaint.
    pub fn step(self, event: TextEvent) -> (action: TextAction)
        ensures
            action@ == self.spec_step(event),
    {
        match event {
            TextEvent::SizeReported(size) => {
                if size == 0 {
                    TextAction::Finish(Err(self.failure()))
                } else {
                    TextAction::Fetch(size as usize)
                }
            },
            TextEvent::FetchFailed => TextAction::Finish(Err(self.failure())),
            TextEvent::Fetched(bytes) => TextAction::Finish(self.finish(decode_text(bytes))),
        }
    }

    /// Ends the call with how decoding its bytes went: decoded text is the
    /// result, less its last character where the call counts the
    /// terminator; the decoder's complaint becomes a failure that quotes it.
    pub fn finish(self, decoded: Result<String, String>) -> (result: Result<String, ReadoutError>)
        ensures
            text_view(result) == self.spec_finish(decoded),
    {
        match decoded {
            Ok(mut text) => {
                match self {
                    TextCall::UserName => {
                        pop_char(&mut text);
                    },
                    TextCall::ComputerName => {},
                }
                Ok(text)
            },
            Err(detail) => {
                let mut message = "String from \"".to_owned();
                message.append(self.name());
                message.append("\" was not valid UTF-8: ");
                message.append(detail.as_str());
                Err(ReadoutError::Other(message))
            },
        }
    }
}

/// The registry key, under `HKEY_LOCAL_MACHINE`, that describes the first
/// processor.
pub const PROCESSOR_KEY: &'static str = "HARDWARE\\DESCRIPTION\\System\\CentralProcessor\\0";

/// The value of [`PROCESSOR_KEY`] that holds the processor's name.
pub const PROCESSOR_NAME_VALUE: &'static str = "ProcessorNameString";

/// The management-instrumentation query that asks for the system's name.
pub const OS_CAPTION_QUERY: &'static str = "SELECT Caption FROM Win32_OperatingSystem";

/// The field of a row of [`OS_CAPTION_QUERY`] that holds the name.
pub const CAPTION_FIELD: &'static str = "Caption";

/// The ticks of the system's uptime counter in one second.
pub const TICKS_PER_SECOND: u64 = 1000;

/// How a shell's path is to be shown.
#[derive(Debug, Clone, Copy, PartialEq, Eq, Structural)]
pub enum ShellFormat {
    Relative,
    Absolute,
}

/// Which shell is asked for.
#[derive(Debug, Clone, Copy, PartialEq, Eq, Structural)]
pub enum ShellKind {
    Current,
    Default,
}

/// The message of the failure when the query gave no name.
pub open spec fn os_name_missing() -> Seq<char> {
    "Trying to get the operating system name from WMI failed"@
}

/// The name of the system: the text of the caption field of the first row;
/// a failure with the system's message where the query was refused, and a
/// failure where there is no row, no such field, or no text in it.
pub open spec fn spec_os_name(query: Result<Vec<QueryRow>, String>) -> Result<
    Seq<char>,
    ReadoutErrorView,
> {
    match query {
        Err(message) => Err(ReadoutErrorView::Other(message@)),
        Ok(rows) => {
            if rows@.len() > 0 && rows@[0]@.contains_key(CAPTION_FIELD@) {
                match rows@[0]@[CAPTION_FIELD@] {
                    QueryValueView::Text(caption) => Ok(caption),
                    QueryValueView::Other => Err(ReadoutErrorView::Other(os_name_missing())),
                }
            } else {
                Err(ReadoutErrorView::Other(os_name_missing()))
            }
        },
    }
}

/// The whole seconds in `tick_count` ticks.
pub open spec fn whole_seconds(tick_count: u64) -> nat {
    (tick_count / 1000) as nat
}

/// Reads general facts about a Windows machine.
#[derive(Debug, Clone, Copy, PartialEq, Eq, Structural)]
pub struct WindowsGeneralReadout;

impl WindowsGeneralReadout {
    /// The readout. It keeps nothing: each accessor is given what it reads.
    pub fn new() -> (readout: Self) {
        WindowsGeneralReadout
    }

    /// The brightness of the display, which this platform does not report.
    pub fn backlight(&self) -> (result: Result<usize, ReadoutError>)
        ensures
            result matches Err(ReadoutError::NotImplemented),
    {
        Err(ReadoutError::NotImplemented)
    }

    /// The resolution of the display, which this platform does not report.
    pub fn resolution(&self) -> (result: Result<String, ReadoutError>)
        ensures
            result matches Err(ReadoutError::NotImplemented),
    {
        Err(ReadoutError::NotImplemented)
    }

    /// One step towards the name of the user who is logged on: answers what
    /// `GetUserNameA` reported with the next thing to do. The name is the
    /// text that the call wrote, without its terminator.
    pub fn username(&self, event: TextEvent) -> (action: TextAction)
        ensures
            action@ == TextCall::UserName.spec_step(event),
    {
        TextCall::UserName.step(event)
    }

    /// One step towards the DNS host name of the machine: answers what
    /// `GetComputerNameExA` reported with the next thing to do. The name is
    /// the text that the call wrote.
    pub fn hostname(&self, event: TextEvent) -> (action: TextAction)
        ensures
            action@ == TextCall::ComputerName.spec_step(event),
    {
        TextCall::ComputerName.step(event)
    }

    /// The distribution, which this platform does not report.
    pub fn distribution(&self) -> (result: Result<String, ReadoutError>)
        ensures
            result matches Err(ReadoutError::NotImplemented),
    {
        Err(ReadoutError::NotImplemented)
    }

    /// The desktop environment, which this platform does not report.
    pub fn desktop_environment(&self) -> (result: Result<String, ReadoutError>)
        ensures
            result matches Err(ReadoutError::NotImplemented),
    {
        Err(ReadoutError::NotImplemented)
    }

    /// The session type, which this platform does not report.
    pub fn session(&self) -> (result: Result<String, ReadoutError>)
        ensures
            result matches Err(ReadoutError::NotImplemented),
    {
        Err(ReadoutError::NotImplemented)
    }

    /// The window manager, which this platform does not report.
    pub fn window_manager(&self) -> (result: Result<String, ReadoutError>)
        ensures
            result matches Err(ReadoutError::NotImplemented),
    {
        Err(ReadoutError::NotImplemented)
    }

    /// The terminal, which this platform does not report.
    pub fn terminal(&self) -> (result: Result<String, ReadoutError>)
        ensures
            result matches Err(ReadoutError::NotImplemented),
    {
        Err(ReadoutError::NotImplemented)
    }

    /// The shell, which this platform does not report.
    pub fn shell(&self, _shorthand: ShellFormat, _kind: ShellKind) -> (result: Result<
        String,
        ReadoutError,
    >)
        ensures
            result matches Err(ReadoutError::NotImplemented),
    {
        Err(ReadoutError::NotImplemented)
    }

    /// The name of the processor, from what the read of
    /// [`PROCESSOR_NAME_VALUE`] under [`PROCESSOR_KEY`] gave.
    pub fn cpu_model_name(&self, processor_name: SystemText) -> (result: Result<
        String,
        ReadoutError,
    >)
        ensures
            text_view(result) == spec_system_text(processor_name),
    {
        system_text(processor_name)
    }

    /// The load of the processor, which this platform does not report.
    pub fn cpu_usage(&self) -> (result: Result<usize, ReadoutError>)
        ensures
            result matches Err(ReadoutError::NotImplemented),
    {
        Err(ReadoutError::NotImplemented)
    }

    /// The number of physical cores, which this platform does not report.
    pub fn cpu_physical_cores(&self) -> (result: Result<usize, ReadoutError>)
        ensures
            result matches Err(ReadoutError::NotImplemented),
    {
        Err(ReadoutError::NotImplemented)
    }

    /// The number of logical cores, which this platform does not report.
    pub fn cpu_cores(&self) -> (result: Result<usize, ReadoutError>)
        ensures
            result matches Err(ReadoutError::NotImplemented),
    {
        Err(ReadoutError::NotImplemented)
    }

    /// The whole seconds since the machine started, from the milliseconds
    /// that its tick counter shows. Where a machine word cannot hold them,
    /// their low bits are returned.
    pub fn uptime(&self, tick_count: u64) -> (result: Result<usize, ReadoutError>)
        ensures
            value_view(result) == Ok::<usize, ReadoutErrorView>(
                (tick_count / TICKS_PER_SECOND) as usize,
            ),
            whole_seconds(tick_count) <= usize::MAX ==> value_view(result) == Ok::<
                usize,
                ReadoutErrorView,
            >(whole_seconds(tick_count) as usize),
    {
        let seconds = tick_count / TICKS_PER_SECOND;
        Ok(seconds as usize)
    }

    /// The manufacturer and the model of the machine, separated by a space.
    pub fn machine(&self, product_readout: &WindowsProductReadout) -> (result: Result<
        String,
        ReadoutError,
    >)
        ensures
            text_view(result) == spec_machine(
                product_readout.manufacturer(),
                product_readout.model(),
            ),
    {
        let mut machine = match product_readout.vendor() {
            Ok(vendor) => vendor,
            Err(error) => {
                return Err(error);
            },
        };
        let product = match product_readout.product() {
            Ok(product) => product,
            Err(error) => {
                return Err(error);
            },
        };
        machine.append(" ");
        machine.append(product.as_str());
        Ok(machine)
    }

    /// The name of the operating system, from what [`OS_CAPTION_QUERY`]
    /// gave: its rows, or the system's message where it was refused.
    pub fn os_name(&self, query: Result<Vec<QueryRow>, String>) -> (result: Result<
        String,
        ReadoutError,
    >)
        ensures
            text_view(result) == spec_os_name(query),
    {
        let results = match query {
            Ok(results) => results,
            Err(message) => {
                return Err(ReadoutError::from(message));
            },
        };
        if results.len() > 0 {
            if let Some(QueryValue::Text(caption)) = results[0].get(CAPTION_FIELD) {
                return Ok(caption.clone());
            }
        }
        Err(
            ReadoutError::Other(
                "Trying to get the operating system name from WMI failed".to_owned(),
            ),
        )
    }

    /// The space on a disk, which this platform does not report.
    pub fn disk_space(&self, _path: &str) -> (result: Result<(u64, u64), ReadoutError>)
        ensures
            result matches Err(ReadoutError::NotImplemented),
    {
        Err(ReadoutError::NotImplemented)
    }

    /// The graphics processors, which this platform does not report.
    pub fn gpus(&self) -> (result: Result<Vec<String>, ReadoutError>)
        ensures
            result matches Err(ReadoutError::NotImplemented),
    {
        Err(ReadoutError::NotImplemented)
    }
}

/// The user name that ends the call holds no null character, provided the
/// system wrote none before the terminator that closes the buffer.
pub proof fn lemma_username_is_nul_free(bytes: Vec<u8>)
    requires
        valid_utf8(bytes@),
        forall|i: int| 0 <= i < bytes@.len() - 1 ==> bytes@[i] != 0,
    ensures
        TextCall::UserName.spec_step(TextEvent::Fetched(bytes)) matches TextActionView::Finish(
            Ok(name),
        ) && nul_free(name),
{
    lemma_decoded_text_without_last_is_nul_free(bytes@);
}

/// The host name that ends the call holds no null character, provided the
/// system wrote none into the buffer.
pub proof fn lemma_hostname_is_nul_free(bytes: Vec<u8>)
    requires
        valid_utf8(bytes@),
        forall|i: int| 0 <= i < bytes@.len() ==> bytes@[i] != 0,
    ensures
        TextCall::ComputerName.spec_step(TextEvent::Fetched(bytes)) matches TextActionView::Finish(
            Ok(name),
        ) && nul_free(name),
{
    lemma_decoded_text_is_nul_free(bytes@);
}

} // verus!
