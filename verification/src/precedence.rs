//! Precedence among the three sources, stated setting by setting.
//!
//! A [`Leaf`] names one setting of the configuration, and
//! [`ConfigView::leaf`] reads it. Over these the module proves what layering
//! does to each setting, and from that the laws of the three-source
//! resolution: the command line wins, the file fills what the command line
//! left out, and the defaults fill the rest.

use vstd::prelude::*;
use crate::config::ConfigView;
use crate::leaf::first_present;

verus! {

/// The settings of a configuration, by name.
pub enum Leaf {
    Port,
    Scheme,
    EnableInjectCmKey,
    CmPrivateKeyPath,
    CmCertPath,
    Mode,
    LogDir,
    LogLevel,
    EnableConsoleLogger,
    EnableTls,
    ServerCertPath,
    ServerPrivateKeyPath,
    ClientCaCertPath,
    StorageBackend,
    DbUrl,
    Password,
}

/// The value of one setting.
pub enum Setting {
    Number(u32),
    Text(Seq<char>),
    Flag(bool),
}

/// An optional number as an optional setting.
pub open spec fn number(value: Option<u32>) -> Option<Setting> {
    match value {
        Some(n) => Some(Setting::Number(n)),
        None => None,
    }
}

/// An optional text as an optional setting.
pub open spec fn wording(value: Option<Seq<char>>) -> Option<Setting> {
    match value {
        Some(t) => Some(Setting::Text(t)),
        None => None,
    }
}

/// An optional flag as an optional setting.
pub open spec fn flag(value: Option<bool>) -> Option<Setting> {
    match value {
        Some(b) => Some(Setting::Flag(b)),
        None => None,
    }
}

impl Leaf {
    /// Whether the built-in defaults hold this setting: all do but the
    /// database URL and the database password.
    pub open spec fn has_default(self) -> bool {
        self != Leaf::DbUrl && self != Leaf::Password
    }
}

impl ConfigView {
    /// The setting that `leaf` names, absent or present with its value.
    pub open spec fn leaf(self, leaf: Leaf) -> Option<Setting> {
        match leaf {
            Leaf::Port => number(self.port),
            Leaf::Scheme => wording(self.scheme),
            Leaf::EnableInjectCmKey => flag(self.enable_inject_cm_key),
            Leaf::CmPrivateKeyPath => wording(self.cm_private_key_path),
            Leaf::CmCertPath => wording(self.cm_cert_path),
            Leaf::Mode => wording(self.mode),
            Leaf::LogDir => wording(self.log_config.log_dir),
            Leaf::LogLevel => wording(self.log_config.log_level),
            Leaf::EnableConsoleLogger => flag(self.log_config.enable_console_logger),
            Leaf::EnableTls => flag(self.tls_config.enable_tls),
            Leaf::ServerCertPath => wording(self.tls_config.server_cert_path),
            Leaf::ServerPrivateKeyPath => wording(self.tls_config.server_private_key_path),
            Leaf::ClientCaCertPath => wording(self.tls_config.client_ca_cert_path),
            Leaf::StorageBackend => wording(self.storage_config.storage_backend),
            Leaf::DbUrl => wording(self.storage_config.db_url),
            Leaf::Password => wording(self.storage_config.password),
        }
    }

    /// Whether every setting is present.
    pub open spec fn populated(self) -> bool {
        forall|leaf: Leaf| (#[trigger] self.leaf(leaf)).is_some()
    }
}

/// The three sources resolved into one configuration: the command line over
/// the file, and the two over the defaults.
pub open spec fn layered(command_line: ConfigView, file: ConfigView, defaults: ConfigView)
    -> ConfigView {
    command_line.merged(file).merged(defaults)
}

/// The resolution against the built-in defaults.
pub open spec fn resolved(command_line: ConfigView, file: ConfigView) -> ConfigView {
    layered(command_line, file, ConfigView::defaults())
}

/// A configuration is no more than its settings: two that agree on every
/// setting are equal.
pub proof fn lemma_leaves_determine(a: ConfigView, b: ConfigView)
    requires
        forall|leaf: Leaf| a.leaf(leaf) == b.leaf(leaf),
    ensures
        a == b,
{
    assert(a.leaf(Leaf::Port) == b.leaf(Leaf::Port));
    assert(a.leaf(Leaf::Scheme) == b.leaf(Leaf::Scheme));
    assert(a.leaf(Leaf::EnableInjectCmKey) == b.leaf(Leaf::EnableInjectCmKey));
    assert(a.leaf(Leaf::CmPrivateKeyPath) == b.leaf(Leaf::CmPrivateKeyPath));
    assert(a.leaf(Leaf::CmCertPath) == b.leaf(Leaf::CmCertPath));
    assert(a.leaf(Leaf::Mode) == b.leaf(Leaf::Mode));
    assert(a.leaf(Leaf::LogDir) == b.leaf(Leaf::LogDir));
    assert(a.leaf(Leaf::LogLevel) == b.leaf(Leaf::LogLevel));
    assert(a.leaf(Leaf::EnableConsoleLogger) == b.leaf(Leaf::EnableConsoleLogger));
    assert(a.leaf(Leaf::EnableTls) == b.leaf(Leaf::EnableTls));
    assert(a.leaf(Leaf::ServerCertPath) == b.leaf(Leaf::ServerCertPath));
    assert(a.leaf(Leaf::ServerPrivateKeyPath) == b.leaf(Leaf::ServerPrivateKeyPath));
    assert(a.leaf(Leaf::ClientCaCertPath) == b.leaf(Leaf::ClientCaCertPath));
    assert(a.leaf(Leaf::StorageBackend) == b.leaf(Leaf::StorageBackend));
    assert(a.leaf(Leaf::DbUrl) == b.leaf(Leaf::DbUrl));
    assert(a.leaf(Leaf::Password) == b.leaf(Leaf::Password));
}

/// Layering resolves each setting on its own: a setting of the result is the
/// primary's where the primary holds one, and the secondary's otherwise.
/// No group is replaced as a whole.
pub proof fn lemma_merged_leaf(primary: ConfigView, secondary: ConfigView, leaf: Leaf)
    ensures
        primary.merged(secondary).leaf(leaf) == first_present(
            primary.leaf(leaf),
            secondary.leaf(leaf),
        ),
{
}

/// Layering over a configuration with no setting present changes nothing.
pub proof fn lemma_merged_absent(x: ConfigView)
    ensures
        x.merged(ConfigView::absent()) == x,
{
}

/// A configuration with no setting present, layered over `y`, is `y`.
pub proof fn lemma_absent_merged(y: ConfigView)
    ensures
        ConfigView::absent().merged(y) == y,
{
}

/// Layering is associative: two merges in a row, with sources of falling
/// priority, give what one three-way resolution by priority gives.
pub proof fn lemma_merged_associative(a: ConfigView, b: ConfigView, c: ConfigView)
    ensures
        a.merged(b).merged(c) == a.merged(b.merged(c)),
{
}

/// Each setting of the resolution is the first one present among the command
/// line's, the file's and the defaults', in that order.
pub proof fn lemma_layered_leaf(
    command_line: ConfigView,
    file: ConfigView,
    defaults: ConfigView,
    leaf: Leaf,
)
    ensures
        layered(command_line, file, defaults).leaf(leaf) == first_present(
            command_line.leaf(leaf),
            first_present(file.leaf(leaf), defaults.leaf(leaf)),
        ),
{
}

/// Precedence: a setting that the command line holds is the resolved one,
/// whatever the file and the defaults hold.
pub proof fn lemma_command_line_wins(
    command_line: ConfigView,
    file: ConfigView,
    defaults: ConfigView,
    leaf: Leaf,
)
    requires
        command_line.leaf(leaf).is_some(),
    ensures
        layered(command_line, file, defaults).leaf(leaf) == command_line.leaf(leaf),
{
}

/// Fallback: a setting that the command line leaves out and the file holds
/// is resolved to the file's.
pub proof fn lemma_file_fills(
    command_line: ConfigView,
    file: ConfigView,
    defaults: ConfigView,
    leaf: Leaf,
)
    requires
        command_line.leaf(leaf).is_none(),
        file.leaf(leaf).is_some(),
    ensures
        layered(command_line, file, defaults).leaf(leaf) == file.leaf(leaf),
{
}

/// Saturation: a setting that neither the command line nor the file holds is
/// resolved to the default's.
pub proof fn lemma_defaults_fill(
    command_line: ConfigView,
    file: ConfigView,
    defaults: ConfigView,
    leaf: Leaf,
)
    requires
        command_line.leaf(leaf).is_none(),
        file.leaf(leaf).is_none(),
    ensures
        layered(command_line, file, defaults).leaf(leaf) == defaults.leaf(leaf),
{
}

/// Every setting that has a default is present after resolution; with
/// defaults that hold every setting, so does the resolved configuration.
pub proof fn lemma_layered_populated(
    command_line: ConfigView,
    file: ConfigView,
    defaults: ConfigView,
)
    ensures
        forall|leaf: Leaf|
            defaults.leaf(leaf).is_some() ==> (#[trigger] layered(
                command_line,
                file,
                defaults,
            ).leaf(leaf)).is_some(),
        defaults.populated() ==> layered(command_line, file, defaults).populated(),
{
    if defaults.populated() {
        assert forall|leaf: Leaf|
            (#[trigger] layered(command_line, file, defaults).leaf(leaf)).is_some() by {
            assert(defaults.leaf(leaf).is_some());
        }
    }
}

/// The built-in defaults hold every setting but the database URL and the
/// database password.
pub proof fn lemma_defaults_present(leaf: Leaf)
    ensures
        ConfigView::defaults().leaf(leaf).is_some() <==> leaf.has_default(),
{
}

/// After resolution against the built-in defaults every setting is present,
/// but for the database URL and the database password, which are present
/// exactly when the command line or the file holds them.
pub proof fn lemma_resolved_present(command_line: ConfigView, file: ConfigView, leaf: Leaf)
    ensures
        resolved(command_line, file).leaf(leaf).is_some() <==> (leaf.has_default()
            || command_line.leaf(leaf).is_some() || file.leaf(leaf).is_some()),
{
}

} // verus!
