//! The closed numeric enumerations: each maps its variants to a fixed table
//! of small integers. Encoding emits the table entry; decoding accepts
//! exactly the table's integers and fails on every other integer with
//! `InvalidEnumValue` — never a best-effort fallback.

use vstd::prelude::*;
use crate::error::{missing, DecodeError, DecodeErrorView};
use crate::wire::{key_string, obj_get, opt_field, WireValueView};

verus! {

/// How the editor should sync document changes to the server.
#[derive(Clone, Copy, PartialEq, Eq, Structural, Debug)]
pub enum TextDocumentSyncKind {
    /// Documents are not synced at all.
    NoSync,
    /// The full content is sent on every change.
    Full,
    /// The full content is sent on open, increments afterwards.
    Incremental,
}

impl TextDocumentSyncKind {
    /// This variant's wire integer.
    pub open spec fn code_spec(self) -> u64 {
        match self {
            TextDocumentSyncKind::NoSync => 0,
            TextDocumentSyncKind::Full => 1,
            TextDocumentSyncKind::Incremental => 2,
        }
    }

    /// The variant of a wire integer; `None` outside the table.
    pub open spec fn from_code_spec(code: u64) -> Option<TextDocumentSyncKind> {
        if code == 0 {
            Some(TextDocumentSyncKind::NoSync)
        } else if code == 1 {
            Some(TextDocumentSyncKind::Full)
        } else if code == 2 {
            Some(TextDocumentSyncKind::Incremental)
        } else {
            None
        }
    }

    pub fn code(self) -> (r: u64)
        ensures
            r == self.code_spec(),
    {
        match self {
            TextDocumentSyncKind::NoSync => 0,
            TextDocumentSyncKind::Full => 1,
            TextDocumentSyncKind::Incremental => 2,
        }
    }

    pub fn from_code(code: u64) -> (r: Result<TextDocumentSyncKind, DecodeError>)
        ensures
            match r {
                Ok(k) => Self::from_code_spec(code) == Some(k),
                Err(e) => Self::from_code_spec(code) is None && e@
                    == DecodeErrorView::InvalidEnumValue("TextDocumentSyncKind"@, code),
            },
    {
        match code {
            0u64 => Ok(TextDocumentSyncKind::NoSync),
            1u64 => Ok(TextDocumentSyncKind::Full),
            2u64 => Ok(TextDocumentSyncKind::Incremental),
            _ => Err(DecodeError::InvalidEnumValue(key_string("TextDocumentSyncKind"), code)),
        }
    }
}

/// Every sync-kind table entry decodes to its variant, and every variant
/// encodes to an integer the table decodes back to it.
pub proof fn lemma_sync_kind_total(k: TextDocumentSyncKind, code: u64)
    ensures
        TextDocumentSyncKind::from_code_spec(k.code_spec()) == Some(k),
        match TextDocumentSyncKind::from_code_spec(code) {
            Some(v) => v.code_spec() == code,
            None => true,
        },
{
}

/// The kind of change a watched file underwent.
#[derive(Clone, Copy, PartialEq, Eq, Structural, Debug)]
pub enum FileChangeType {
    /// The file got created.
    Created,
    /// The file got changed.
    Changed,
    /// The file got deleted.
    Deleted,
}

impl FileChangeType {
    /// This variant's wire integer.
    pub open spec fn code_spec(self) -> u64 {
        match self {
            FileChangeType::Created => 1,
            FileChangeType::Changed => 2,
            FileChangeType::Deleted => 3,
        }
    }

    /// The variant of a wire integer; `None` outside the table.
    pub open spec fn from_code_spec(code: u64) -> Option<FileChangeType> {
        if code == 1 {
            Some(FileChangeType::Created)
        } else if code == 2 {
            Some(FileChangeType::Changed)
        } else if code == 3 {
            Some(FileChangeType::Deleted)
        } else {
            None
        }
    }

    pub fn code(self) -> (r: u64)
        ensures
            r == self.code_spec(),
    {
        match self {
            FileChangeType::Created => 1,
            FileChangeType::Changed => 2,
            FileChangeType::Deleted => 3,
        }
    }

    pub fn from_code(code: u64) -> (r: Result<FileChangeType, DecodeError>)
        ensures
            match r {
                Ok(k) => Self::from_code_spec(code) == Some(k),
                Err(e) => Self::from_code_spec(code) is None && e@
                    == DecodeErrorView::InvalidEnumValue("FileChangeType"@, code),
            },
    {
        match code {
            1u64 => Ok(FileChangeType::Created),
            2u64 => Ok(FileChangeType::Changed),
            3u64 => Ok(FileChangeType::Deleted),
            _ => Err(DecodeError::InvalidEnumValue(key_string("FileChangeType"), code)),
        }
    }
}

/// Every file-change table entry decodes to its variant, and every variant
/// encodes to an integer the table decodes back to it.
pub proof fn lemma_file_change_total(k: FileChangeType, code: u64)
    ensures
        FileChangeType::from_code_spec(k.code_spec()) == Some(k),
        match FileChangeType::from_code_spec(code) {
            Some(v) => v.code_spec() == code,
            None => true,
        },
{
}

/// The kind of a completion entry; drives the icon the editor shows.
#[derive(Clone, Copy, PartialEq, Eq, Structural, Debug)]
pub enum CompletionItemKind {
    Text,
    Method,
    Function,
    Constructor,
    Field,
    Variable,
    Class,
    Interface,
    Module,
    Property,
    Unit,
    Value,
    Enum,
    Keyword,
    Snippet,
    Color,
    File,
    Reference,
}

impl CompletionItemKind {
    /// This variant's wire integer.
    pub open spec fn code_spec(self) -> u64 {
        match self {
            CompletionItemKind::Text => 1,
            CompletionItemKind::Method => 2,
            CompletionItemKind::Function => 3,
            CompletionItemKind::Constructor => 4,
            CompletionItemKind::Field => 5,
            CompletionItemKind::Variable => 6,
            CompletionItemKind::Class => 7,
            CompletionItemKind::Interface => 8,
            CompletionItemKind::Module => 9,
            CompletionItemKind::Property => 10,
            CompletionItemKind::Unit => 11,
            CompletionItemKind::Value => 12,
            CompletionItemKind::Enum => 13,
            CompletionItemKind::Keyword => 14,
            CompletionItemKind::Snippet => 15,
            CompletionItemKind::Color => 16,
            CompletionItemKind::File => 17,
            CompletionItemKind::Reference => 18,
        }
    }

    /// The variant of a wire integer; `None` outside the table.
    pub open spec fn from_code_spec(code: u64) -> Option<CompletionItemKind> {
        if code == 1 {
            Some(CompletionItemKind::Text)
        } else if code == 2 {
            Some(CompletionItemKind::Method)
        } else if code == 3 {
            Some(CompletionItemKind::Function)
        } else if code == 4 {
            Some(CompletionItemKind::Constructor)
        } else if code == 5 {
            Some(CompletionItemKind::Field)
        } else if code == 6 {
            Some(CompletionItemKind::Variable)
        } else if code == 7 {
            Some(CompletionItemKind::Class)
        } else if code == 8 {
            Some(CompletionItemKind::Interface)
        } else if code == 9 {
            Some(CompletionItemKind::Module)
        } else if code == 10 {
            Some(CompletionItemKind::Property)
        } else if code == 11 {
            Some(CompletionItemKind::Unit)
        } else if code == 12 {
            Some(CompletionItemKind::Value)
        } else if code == 13 {
            Some(CompletionItemKind::Enum)
        } else if code == 14 {
            Some(CompletionItemKind::Keyword)
        } else if code == 15 {
            Some(CompletionItemKind::Snippet)
        } else if code == 16 {
            Some(CompletionItemKind::Color)
        } else if code == 17 {
            Some(CompletionItemKind::File)
        } else if code == 18 {
            Some(CompletionItemKind::Reference)
        } else {
            None
        }
    }

    pub fn code(self) -> (r: u64)
        ensures
            r == self.code_spec(),
    {
        match self {
            CompletionItemKind::Text => 1,
            CompletionItemKind::Method => 2,
            CompletionItemKind::Function => 3,
            CompletionItemKind::Constructor => 4,
            CompletionItemKind::Field => 5,
            CompletionItemKind::Variable => 6,
            CompletionItemKind::Class => 7,
            CompletionItemKind::Interface => 8,
            CompletionItemKind::Module => 9,
            CompletionItemKind::Property => 10,
            CompletionItemKind::Unit => 11,
            CompletionItemKind::Value => 12,
            CompletionItemKind::Enum => 13,
            CompletionItemKind::Keyword => 14,
            CompletionItemKind::Snippet => 15,
            CompletionItemKind::Color => 16,
            CompletionItemKind::File => 17,
            CompletionItemKind::Reference => 18,
        }
    }

    pub fn from_code(code: u64) -> (r: Result<CompletionItemKind, DecodeError>)
        ensures
            match r {
                Ok(k) => Self::from_code_spec(code) == Some(k),
                Err(e) => Self::from_code_spec(code) is None && e@
                    == DecodeErrorView::InvalidEnumValue("CompletionItemKind"@, code),
            },
    {
        match code {
            1u64 => Ok(CompletionItemKind::Text),
            2u64 => Ok(CompletionItemKind::Method),
            3u64 => Ok(CompletionItemKind::Function),
            4u64 => Ok(CompletionItemKind::Constructor),
            5u64 => Ok(CompletionItemKind::Field),
            6u64 => Ok(CompletionItemKind::Variable),
            7u64 => Ok(CompletionItemKind::Class),
            8u64 => Ok(CompletionItemKind::Interface),
            9u64 => Ok(CompletionItemKind::Module),
            10u64 => Ok(CompletionItemKind::Property),
            11u64 => Ok(CompletionItemKind::Unit),
            12u64 => Ok(CompletionItemKind::Value),
            13u64 => Ok(CompletionItemKind::Enum),
            14u64 => Ok(CompletionItemKind::Keyword),
            15u64 => Ok(CompletionItemKind::Snippet),
            16u64 => Ok(CompletionItemKind::Color),
            17u64 => Ok(CompletionItemKind::File),
            18u64 => Ok(CompletionItemKind::Reference),
            _ => Err(DecodeError::InvalidEnumValue(key_string("CompletionItemKind"), code)),
        }
    }
}

/// Every completion-kind table entry decodes to its variant, and every
/// variant encodes to an integer the table decodes back to it.
pub proof fn lemma_completion_kind_total(k: CompletionItemKind, code: u64)
    ensures
        CompletionItemKind::from_code_spec(k.code_spec()) == Some(k),
        match CompletionItemKind::from_code_spec(code) {
            Some(v) => v.code_spec() == code,
            None => true,
        },
{
}

/// The kind of a document highlight.
#[derive(Clone, Copy, PartialEq, Eq, Structural, Debug)]
pub enum DocumentHighlightKind {
    /// A textual occurrence.
    Text,
    /// Read access of a symbol.
    Read,
    /// Write access of a symbol.
    Write,
}

impl DocumentHighlightKind {
    /// This variant's wire integer.
    pub open spec fn code_spec(self) -> u64 {
        match self {
            DocumentHighlightKind::Text => 1,
            DocumentHighlightKind::Read => 2,
            DocumentHighlightKind::Write => 3,
        }
    }

    /// The variant of a wire integer; `None` outside the table.
    pub open spec fn from_code_spec(code: u64) -> Option<DocumentHighlightKind> {
        if code == 1 {
            Some(DocumentHighlightKind::Text)
        } else if code == 2 {
            Some(DocumentHighlightKind::Read)
        } else if code == 3 {
            Some(DocumentHighlightKind::Write)
        } else {
            None
        }
    }

    pub fn code(self) -> (r: u64)
        ensures
            r == self.code_spec(),
    {
        match self {
            DocumentHighlightKind::Text => 1,
            DocumentHighlightKind::Read => 2,
            DocumentHighlightKind::Write => 3,
        }
    }

    pub fn from_code(code: u64) -> (r: Result<DocumentHighlightKind, DecodeError>)
        ensures
            match r {
                Ok(k) => Self::from_code_spec(code) == Some(k),
                Err(e) => Self::from_code_spec(code) is None && e@
                    == DecodeErrorView::InvalidEnumValue("DocumentHighlightKind"@, code),
            },
    {
        match code {
            1u64 => Ok(DocumentHighlightKind::Text),
            2u64 => Ok(DocumentHighlightKind::Read),
            3u64 => Ok(DocumentHighlightKind::Write),
            _ => Err(DecodeError::InvalidEnumValue(key_string("DocumentHighlightKind"), code)),
        }
    }
}

/// Every highlight-kind table entry decodes to its variant, and every
/// variant encodes to an integer the table decodes back to it.
pub proof fn lemma_highlight_kind_total(k: DocumentHighlightKind, code: u64)
    ensures
        DocumentHighlightKind::from_code_spec(k.code_spec()) == Some(k),
        match DocumentHighlightKind::from_code_spec(code) {
            Some(v) => v.code_spec() == code,
            None => true,
        },
{
}

/// The kind of a programming construct a symbol names.
#[derive(Clone, Copy, PartialEq, Eq, Structural, Debug)]
pub enum SymbolKind {
    File,
    Module,
    Namespace,
    Package,
    Class,
    Method,
    Property,
    Field,
    Constructor,
    Enum,
    Interface,
    Function,
    Variable,
    Constant,
    Str,
    Number,
    Boolean,
    Array,
}

impl SymbolKind {
    /// This variant's wire integer.
    pub open spec fn code_spec(self) -> u64 {
        match self {
            SymbolKind::File => 1,
            SymbolKind::Module => 2,
            SymbolKind::Namespace => 3,
            SymbolKind::Package => 4,
            SymbolKind::Class => 5,
            SymbolKind::Method => 6,
            SymbolKind::Property => 7,
            SymbolKind::Field => 8,
            SymbolKind::Constructor => 9,
            SymbolKind::Enum => 10,
            SymbolKind::Interface => 11,
            SymbolKind::Function => 12,
            SymbolKind::Variable => 13,
            SymbolKind::Constant => 14,
            SymbolKind::Str => 15,
            SymbolKind::Number => 16,
            SymbolKind::Boolean => 17,
            SymbolKind::Array => 18,
        }
    }

    /// The variant of a wire integer; `None` outside the table.
    pub open spec fn from_code_spec(code: u64) -> Option<SymbolKind> {
        if code == 1 {
            Some(SymbolKind::File)
        } else if code == 2 {
            Some(SymbolKind::Module)
        } else if code == 3 {
            Some(SymbolKind::Namespace)
        } else if code == 4 {
            Some(SymbolKind::Package)
        } else if code == 5 {
            Some(SymbolKind::Class)
        } else if code == 6 {
            Some(SymbolKind::Method)
        } else if code == 7 {
            Some(SymbolKind::Property)
        } else if code == 8 {
            Some(SymbolKind::Field)
        } else if code == 9 {
            Some(SymbolKind::Constructor)
        } else if code == 10 {
            Some(SymbolKind::Enum)
        } else if code == 11 {
            Some(SymbolKind::Interface)
        } else if code == 12 {
            Some(SymbolKind::Function)
        } else if code == 13 {
            Some(SymbolKind::Variable)
        } else if code == 14 {
            Some(SymbolKind::Constant)
        } else if code == 15 {
            Some(SymbolKind::Str)
        } else if code == 16 {
            Some(SymbolKind::Number)
        } else if code == 17 {
            Some(SymbolKind::Boolean)
        } else if code == 18 {
            Some(SymbolKind::Array)
        } else {
            None
        }
    }

    pub fn code(self) -> (r: u64)
        ensures
            r == self.code_spec(),
    {
        match self {
            SymbolKind::File => 1,
            SymbolKind::Module => 2,
            SymbolKind::Namespace => 3,
            SymbolKind::Package => 4,
            SymbolKind::Class => 5,
            SymbolKind::Method => 6,
            SymbolKind::Property => 7,
            SymbolKind::Field => 8,
            SymbolKind::Constructor => 9,
            SymbolKind::Enum => 10,
            SymbolKind::Interface => 11,
            SymbolKind::Function => 12,
            SymbolKind::Variable => 13,
            SymbolKind::Constant => 14,
            SymbolKind::Str => 15,
            SymbolKind::Number => 16,
            SymbolKind::Boolean => 17,
            SymbolKind::Array => 18,
        }
    }

    pub fn from_code(code: u64) -> (r: Result<SymbolKind, DecodeError>)
        ensures
            match r {
                Ok(k) => Self::from_code_spec(code) == Some(k),
                Err(e) => Self::from_code_spec(code) is None && e@
                    == DecodeErrorView::InvalidEnumValue("SymbolKind"@, code),
            },
    {
        match code {
            1u64 => Ok(SymbolKind::File),
            2u64 => Ok(SymbolKind::Module),
            3u64 => Ok(SymbolKind::Namespace),
            4u64 => Ok(SymbolKind::Package),
            5u64 => Ok(SymbolKind::Class),
            6u64 => Ok(SymbolKind::Method),
            7u64 => Ok(SymbolKind::Property),
            8u64 => Ok(SymbolKind::Field),
            9u64 => Ok(SymbolKind::Constructor),
            10u64 => Ok(SymbolKind::Enum),
            11u64 => Ok(SymbolKind::Interface),
            12u64 => Ok(SymbolKind::Function),
            13u64 => Ok(SymbolKind::Variable),
            14u64 => Ok(SymbolKind::Constant),
            15u64 => Ok(SymbolKind::Str),
            16u64 => Ok(SymbolKind::Number),
            17u64 => Ok(SymbolKind::Boolean),
            18u64 => Ok(SymbolKind::Array),
            _ => Err(DecodeError::InvalidEnumValue(key_string("SymbolKind"), code)),
        }
    }
}

/// Every symbol-kind table entry decodes to its variant, and every variant
/// encodes to an integer the table decodes back to it.
pub proof fn lemma_symbol_kind_total(k: SymbolKind, code: u64)
    ensures
        SymbolKind::from_code_spec(k.code_spec()) == Some(k),
        match SymbolKind::from_code_spec(code) {
            Some(v) => v.code_spec() == code,
            None => true,
        },
{
}

/// How severe a diagnostic is.
#[derive(Clone, Copy, PartialEq, Eq, Structural, Debug)]
pub enum DiagnosticSeverity {
    /// Reports an error.
    Error,
    /// Reports a warning.
    Warning,
    /// Reports an information.
    Information,
    /// Reports a hint.
    Hint,
}

impl DiagnosticSeverity {
    /// This variant's wire integer.
    pub open spec fn code_spec(self) -> u64 {
        match self {
            DiagnosticSeverity::Error => 1,
            DiagnosticSeverity::Warning => 2,
            DiagnosticSeverity::Information => 3,
            DiagnosticSeverity::Hint => 4,
        }
    }

    /// The variant of a wire integer; `None` outside the table.
    pub open spec fn from_code_spec(code: u64) -> Option<DiagnosticSeverity> {
        if code == 1 {
            Some(DiagnosticSeverity::Error)
        } else if code == 2 {
            Some(DiagnosticSeverity::Warning)
        } else if code == 3 {
            Some(DiagnosticSeverity::Information)
        } else if code == 4 {
            Some(DiagnosticSeverity::Hint)
        } else {
            None
        }
    }

    pub fn code(self) -> (r: u64)
        ensures
            r == self.code_spec(),
    {
        match self {
            DiagnosticSeverity::Error => 1,
            DiagnosticSeverity::Warning => 2,
            DiagnosticSeverity::Information => 3,
            DiagnosticSeverity::Hint => 4,
        }
    }

    pub fn from_code(code: u64) -> (r: Result<DiagnosticSeverity, DecodeError>)
        ensures
            match r {
                Ok(k) => Self::from_code_spec(code) == Some(k),
                Err(e) => Self::from_code_spec(code) is None && e@
                    == DecodeErrorView::InvalidEnumValue("DiagnosticSeverity"@, code),
            },
    {
        match code {
            1u64 => Ok(DiagnosticSeverity::Error),
            2u64 => Ok(DiagnosticSeverity::Warning),
            3u64 => Ok(DiagnosticSeverity::Information),
            4u64 => Ok(DiagnosticSeverity::Hint),
            _ => Err(DecodeError::InvalidEnumValue(key_string("DiagnosticSeverity"), code)),
        }
    }
}

/// Every severity table entry decodes to its variant, and every variant
/// encodes to an integer the table decodes back to it.
pub proof fn lemma_severity_total(k: DiagnosticSeverity, code: u64)
    ensures
        DiagnosticSeverity::from_code_spec(k.code_spec()) == Some(k),
        match DiagnosticSeverity::from_code_spec(code) {
            Some(v) => v.code_spec() == code,
            None => true,
        },
{
}

/// The kind of a message shown or logged by the client.
#[derive(Clone, Copy, PartialEq, Eq, Structural, Debug)]
pub enum MessageType {
    /// An error message.
    Error,
    /// A warning message.
    Warning,
    /// An information message.
    Info,
    /// A log message.
    Log,
}

impl MessageType {
    /// This variant's wire integer.
    pub open spec fn code_spec(self) -> u64 {
        match self {
            MessageType::Error => 1,
            MessageType::Warning => 2,
            MessageType::Info => 3,
            MessageType::Log => 4,
        }
    }

    /// The variant of a wire integer; `None` outside the table.
    pub open spec fn from_code_spec(code: u64) -> Option<MessageType> {
        if code == 1 {
            Some(MessageType::Error)
        } else if code == 2 {
            Some(MessageType::Warning)
        } else if code == 3 {
            Some(MessageType::Info)
        } else if code == 4 {
            Some(MessageType::Log)
        } else {
            None
        }
    }

    pub fn code(self) -> (r: u64)
        ensures
            r == self.code_spec(),
    {
        match self {
            MessageType::Error => 1,
            MessageType::Warning => 2,
            MessageType::Info => 3,
            MessageType::Log => 4,
        }
    }

    pub fn from_code(code: u64) -> (r: Result<MessageType, DecodeError>)
        ensures
            match r {
                Ok(k) => Self::from_code_spec(code) == Some(k),
                Err(e) => Self::from_code_spec(code) is None && e@
                    == DecodeErrorView::InvalidEnumValue("MessageType"@, code),
            },
    {
        match code {
            1u64 => Ok(MessageType::Error),
            2u64 => Ok(MessageType::Warning),
            3u64 => Ok(MessageType::Info),
            4u64 => Ok(MessageType::Log),
            _ => Err(DecodeError::InvalidEnumValue(key_string("MessageType"), code)),
        }
    }
}

/// Every message-type table entry decodes to its variant, and every variant
/// encodes to an integer the table decodes back to it.
pub proof fn lemma_message_type_total(k: MessageType, code: u64)
    ensures
        MessageType::from_code_spec(k.code_spec()) == Some(k),
        match MessageType::from_code_spec(code) {
            Some(v) => v.code_spec() == code,
            None => true,
        },
{
}


/// An optional field holding this enumeration's wire integer.
pub open spec fn opt_sync_kind(fs: Seq<(Seq<char>, WireValueView)>, key: Seq<char>) -> Result<
    Option<TextDocumentSyncKind>,
    DecodeErrorView,
> {
    match opt_field(fs, key) {
        Some(WireValueView::Num(n)) => match TextDocumentSyncKind::from_code_spec(n) {
            Some(k) => Ok(Some(k)),
            None => Err(DecodeErrorView::InvalidEnumValue("TextDocumentSyncKind"@, n)),
        },
        Some(_) => Err(missing(key)),
        None => Ok(None),
    }
}

/// A required field holding this enumeration's wire integer.
pub open spec fn req_file_change_type(fs: Seq<(Seq<char>, WireValueView)>, key: Seq<char>) -> Result<
    FileChangeType,
    DecodeErrorView,
> {
    match obj_get(fs, key) {
        Some(WireValueView::Num(n)) => match FileChangeType::from_code_spec(n) {
            Some(k) => Ok(k),
            None => Err(DecodeErrorView::InvalidEnumValue("FileChangeType"@, n)),
        },
        _ => Err(missing(key)),
    }
}

/// An optional field holding this enumeration's wire integer.
pub open spec fn opt_completion_item_kind(fs: Seq<(Seq<char>, WireValueView)>, key: Seq<char>) -> Result<
    Option<CompletionItemKind>,
    DecodeErrorView,
> {
    match opt_field(fs, key) {
        Some(WireValueView::Num(n)) => match CompletionItemKind::from_code_spec(n) {
            Some(k) => Ok(Some(k)),
            None => Err(DecodeErrorView::InvalidEnumValue("CompletionItemKind"@, n)),
        },
        Some(_) => Err(missing(key)),
        None => Ok(None),
    }
}

/// An optional field holding this enumeration's wire integer.
pub open spec fn opt_document_highlight_kind(fs: Seq<(Seq<char>, WireValueView)>, key: Seq<char>) -> Result<
    Option<DocumentHighlightKind>,
    DecodeErrorView,
> {
    match opt_field(fs, key) {
        Some(WireValueView::Num(n)) => match DocumentHighlightKind::from_code_spec(n) {
            Some(k) => Ok(Some(k)),
            None => Err(DecodeErrorView::InvalidEnumValue("DocumentHighlightKind"@, n)),
        },
        Some(_) => Err(missing(key)),
        None => Ok(None),
    }
}

/// A required field holding this enumeration's wire integer.
pub open spec fn req_symbol_kind(fs: Seq<(Seq<char>, WireValueView)>, key: Seq<char>) -> Result<
    SymbolKind,
    DecodeErrorView,
> {
    match obj_get(fs, key) {
        Some(WireValueView::Num(n)) => match SymbolKind::from_code_spec(n) {
            Some(k) => Ok(k),
            None => Err(DecodeErrorView::InvalidEnumValue("SymbolKind"@, n)),
        },
        _ => Err(missing(key)),
    }
}

/// An optional field holding this enumeration's wire integer.
pub open spec fn opt_diagnostic_severity(fs: Seq<(Seq<char>, WireValueView)>, key: Seq<char>) -> Result<
    Option<DiagnosticSeverity>,
    DecodeErrorView,
> {
    match opt_field(fs, key) {
        Some(WireValueView::Num(n)) => match DiagnosticSeverity::from_code_spec(n) {
            Some(k) => Ok(Some(k)),
            None => Err(DecodeErrorView::InvalidEnumValue("DiagnosticSeverity"@, n)),
        },
        Some(_) => Err(missing(key)),
        None => Ok(None),
    }
}

/// A required field holding this enumeration's wire integer.
pub open spec fn req_message_type(fs: Seq<(Seq<char>, WireValueView)>, key: Seq<char>) -> Result<
    MessageType,
    DecodeErrorView,
> {
    match obj_get(fs, key) {
        Some(WireValueView::Num(n)) => match MessageType::from_code_spec(n) {
            Some(k) => Ok(k),
            None => Err(DecodeErrorView::InvalidEnumValue("MessageType"@, n)),
        },
        _ => Err(missing(key)),
    }
}

} // verus!
