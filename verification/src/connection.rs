//! The connection dialog: when a form can be submitted, what the password
//! options offer, and how the dialog reacts to edits and to the answers of
//! connection tests, connection attempts and keyring checks.

use vstd::prelude::*;
use crate::actions::failure_notice;
use crate::i18n::{tr, translated};
use crate::text::{chars_of, parse_unsigned, parse_unsigned_spec, trim, trim_spec};

verus! {

/// How the SSH tunnel authenticates.
#[derive(Clone, Copy, Debug, PartialEq, Eq, Structural)]
pub enum SshAuthMethod {
    Password,
    PrivateKey,
    Agent,
}

/// The method chosen in the dropdown: a private key at 1, the agent at 2, a
/// password otherwise.
pub fn ssh_auth_method_from_index(index: u32) -> (r: SshAuthMethod)
    ensures
        r == (if index == 1 {
            SshAuthMethod::PrivateKey
        } else if index == 2 {
            SshAuthMethod::Agent
        } else {
            SshAuthMethod::Password
        }),
{
    match index {
        1 => SshAuthMethod::PrivateKey,
        2 => SshAuthMethod::Agent,
        _ => SshAuthMethod::Password,
    }
}

/// The dropdown position of a method; the inverse of
/// `ssh_auth_method_from_index` on 0, 1 and 2.
pub fn ssh_auth_method_index(method: SshAuthMethod) -> (r: u32)
    ensures
        r < 3,
        ssh_auth_method_from_index_spec(r) == method,
{
    match method {
        SshAuthMethod::Password => 0,
        SshAuthMethod::PrivateKey => 1,
        SshAuthMethod::Agent => 2,
    }
}

/// A secret of the SSH tunnel kept in the credential store.
#[derive(Clone, Copy, Debug, PartialEq, Eq, Structural)]
pub enum SshSecret {
    Password,
    KeyPassphrase,
}

/// The saved secrets to read before connecting.
#[derive(Clone, Copy, Debug, PartialEq, Eq, Structural)]
pub struct SecretsToLoad {
    /// The database password: none was typed and it is saved.
    pub password: bool,
    /// The tunnel's secret for its method, when the tunnel saves its secret
    /// and none was typed.
    pub ssh_secret: Option<SshSecret>,
}

/// Which saved secrets to read before connecting. `ssh_save_secret` is
/// `None` without an SSH tunnel, else whether the tunnel saves its secret.
pub fn secrets_to_load(
    password: &str,
    save_password: bool,
    ssh_save_secret: Option<bool>,
    auth_method: SshAuthMethod,
    ssh_password: &str,
    ssh_key_passphrase: &str,
) -> (r: SecretsToLoad)
    ensures
        r.password == (password@.len() == 0 && save_password),
        r.ssh_secret == (if ssh_save_secret == Some(true) {
            match auth_method {
                SshAuthMethod::Password => if ssh_password@.len() == 0 {
                    Some(SshSecret::Password)
                } else {
                    None
                },
                SshAuthMethod::PrivateKey => if ssh_key_passphrase@.len() == 0 {
                    Some(SshSecret::KeyPassphrase)
                } else {
                    None
                },
                SshAuthMethod::Agent => None,
            }
        } else {
            None
        }),
{
    let load_password = password.is_empty() && save_password;
    let ssh_secret = match ssh_save_secret {
        Some(true) => match auth_method {
            SshAuthMethod::Password => if ssh_password.is_empty() {
                Some(SshSecret::Password)
            } else {
                None
            },
            SshAuthMethod::PrivateKey => if ssh_key_passphrase.is_empty() {
                Some(SshSecret::KeyPassphrase)
            } else {
                None
            },
            SshAuthMethod::Agent => None,
        },
        _ => None,
    };
    SecretsToLoad { password: load_password, ssh_secret }
}

/// The heading of the error when reading a saved secret failed.
pub fn secret_read_failure_msgid(ssh: bool) -> (r: &'static str)
    ensures
        r@ == (if ssh {
            "Reading the saved SSH secret failed"@
        } else {
            "Reading the saved password failed"@
        }),
{
    if ssh {
        "Reading the saved SSH secret failed"
    } else {
        "Reading the saved password failed"
    }
}

/// The secrets a connection is made with.
#[derive(Clone, Debug)]
pub struct ConnectSecrets {
    pub password: String,
    pub ssh_password: String,
    pub ssh_key_passphrase: String,
}

/// `text` is the notice for a failed read of a saved secret: the translated
/// heading, a colon and the error.
/// The text of the heading of the notice for a failed read of a saved
/// secret.
pub open spec fn secret_read_failure_heading(ssh: bool) -> Seq<char> {
    if ssh {
        "Reading the saved SSH secret failed"@
    } else {
        "Reading the saved password failed"@
    }
}

/// `text` is the notice for a failed read of a saved secret: the translated
/// heading, a colon and the error.
pub open spec fn secret_read_failure_text(ssh: bool, error: Seq<char>, text: Seq<char>) -> bool {
    exists|heading: Seq<char>|
        #![trigger translated(secret_read_failure_heading(ssh), heading)]
        translated(secret_read_failure_heading(ssh), heading) && text == heading + ": "@ + error
}

fn secret_read_failure(ssh: bool, error: &str) -> (r: String)
    ensures
        secret_read_failure_text(ssh, error@, r@),
{
    let heading = tr(secret_read_failure_msgid(ssh));
    let r = failure_notice(heading.as_str(), error);
    proof {
        assert(translated(secret_read_failure_heading(ssh), heading@));
    }
    r
}

/// Fills in the secrets that `to_load` asked to read, from the reads'
/// results: a read secret replaces the field, a secret that was not found
/// leaves it as it is, and a failed read (the password's first) ends with
/// its notice. Reads that were not asked for are not looked at.
pub fn fill_secrets(
    secrets: ConnectSecrets,
    to_load: SecretsToLoad,
    password_read: Result<Option<String>, String>,
    ssh_read: Result<Option<String>, String>,
) -> (r: Result<ConnectSecrets, String>)
    ensures
        to_load.password && password_read is Err ==> (r matches Err(notice)
            && secret_read_failure_text(false, password_read->Err_0@, notice@)),
        !(to_load.password && password_read is Err) && to_load.ssh_secret is Some && ssh_read is Err
            ==> (r matches Err(notice) && secret_read_failure_text(true, ssh_read->Err_0@, notice@)),
        !(to_load.password && password_read is Err) && !(to_load.ssh_secret is Some && ssh_read is Err)
            ==> (r matches Ok(filled) && filled.password == (if to_load.password
            && password_read matches Ok(Some(p)) {
            password_read->Ok_0->Some_0
        } else {
            secrets.password
        }) && filled.ssh_password == (if to_load.ssh_secret == Some(SshSecret::Password)
            && ssh_read matches Ok(Some(p)) {
            ssh_read->Ok_0->Some_0
        } else {
            secrets.ssh_password
        }) && filled.ssh_key_passphrase == (if to_load.ssh_secret == Some(SshSecret::KeyPassphrase)
            && ssh_read matches Ok(Some(p)) {
            ssh_read->Ok_0->Some_0
        } else {
            secrets.ssh_key_passphrase
        })),
{
    let mut filled = secrets;
    if to_load.password {
        match password_read {
            Err(error) => {
                return Err(secret_read_failure(false, error.as_str()));
            },
            Ok(Some(password)) => {
                filled.password = password;
            },
            Ok(None) => {},
        }
    }
    match to_load.ssh_secret {
        None => {},
        Some(kind) => match ssh_read {
            Err(error) => {
                return Err(secret_read_failure(true, error.as_str()));
            },
            Ok(Some(secret)) => match kind {
                SshSecret::Password => {
                    filled.ssh_password = secret;
                },
                SshSecret::KeyPassphrase => {
                    filled.ssh_key_passphrase = secret;
                },
            },
            Ok(None) => {},
        },
    }
    Ok(filled)
}

/// What happens to the saved password once connected: kept when it is to be
/// saved but none was typed, stored when one was typed, deleted when it is
/// not to be saved.
#[derive(Clone, Copy, Debug, PartialEq, Eq, Structural)]
pub enum SavedPasswordUpdate {
    Keep,
    Store,
    Delete,
}

/// What to do with the saved password after connecting.
pub fn saved_password_update(save_password: bool, password: &str) -> (r: SavedPasswordUpdate)
    ensures
        r == (if !save_password {
            SavedPasswordUpdate::Delete
        } else if password@.len() == 0 {
            SavedPasswordUpdate::Keep
        } else {
            SavedPasswordUpdate::Store
        }),
{
    if !save_password {
        SavedPasswordUpdate::Delete
    } else if password.is_empty() {
        SavedPasswordUpdate::Keep
    } else {
        SavedPasswordUpdate::Store
    }
}

/// What to do when updating the saved password failed: whether to turn the
/// connection's "save password" off, and the warning to show.
#[derive(Clone, Debug)]
pub struct SavedPasswordUpdateFailure {
    pub disable_saved_password: bool,
    pub warning: String,
}

/// The answer to updating the saved password: nothing when it worked; else
/// the translated warning with the error, and, when the password was to be
/// saved, saving is turned off for the connection.
pub fn saved_password_update_failure(save_password: bool, result: Result<(), String>) -> (r: Option<
    SavedPasswordUpdateFailure,
>)
    ensures
        result is Ok ==> r is None,
        result matches Err(error) ==> (r matches Some(f) && f.disable_saved_password == save_password
            && exists|heading: Seq<char>|
            #![trigger translated("Updating the saved password failed"@, heading)]
            translated("Updating the saved password failed"@, heading) && f.warning@ == heading
                + ": "@ + error@),
{
    match result {
        Ok(()) => None,
        Err(error) => {
            let heading = tr("Updating the saved password failed");
            let warning = failure_notice(heading.as_str(), error.as_str());
            proof {
                assert(translated("Updating the saved password failed"@, heading@));
            }
            Some(SavedPasswordUpdateFailure { disable_saved_password: save_password, warning })
        },
    }
}

pub open spec fn ssh_auth_method_from_index_spec(index: u32) -> SshAuthMethod {
    if index == 1 {
        SshAuthMethod::PrivateKey
    } else if index == 2 {
        SshAuthMethod::Agent
    } else {
        SshAuthMethod::Password
    }
}

/// The fields of the connection form as typed.
#[derive(Clone, Debug)]
pub struct ConnectionForm {
    pub id: Option<String>,
    pub name: String,
    pub host: String,
    pub port: String,
    pub database: String,
    pub username: String,
    pub password: String,
    pub save_password: bool,
    pub ssh_enabled: bool,
    pub ssh_host: String,
    pub ssh_port: String,
    pub ssh_username: String,
    pub ssh_auth_method: SshAuthMethod,
    pub ssh_password: String,
    pub ssh_private_key_path: String,
    pub ssh_key_passphrase: String,
    pub ssh_save_secret: bool,
    pub ssh_host_key_fingerprint: Option<String>,
}

/// A field holds more than white space.
pub open spec fn filled(s: Seq<char>) -> bool {
    trim_spec(s).len() > 0
}

/// A field holds a port number (0 to 65535) once trimmed.
pub open spec fn valid_port(s: Seq<char>) -> bool {
    parse_unsigned_spec(trim_spec(s), 65535) is Some
}

/// The form can be submitted: name, host, database and user are filled in
/// and the port is a number; with SSH on, its host and user are filled in,
/// its port is a number, and a private key is chosen when that is the method.
pub open spec fn can_submit_spec(f: ConnectionForm) -> bool {
    &&& filled(f.name@)
    &&& filled(f.host@)
    &&& valid_port(f.port@)
    &&& filled(f.database@)
    &&& filled(f.username@)
    &&& (!f.ssh_enabled || (filled(f.ssh_host@) && valid_port(f.ssh_port@) && filled(
        f.ssh_username@,
    ) && (f.ssh_auth_method != SshAuthMethod::PrivateKey || filled(f.ssh_private_key_path@))))
}

/// A form that can be submitted has a name, a host, a database and a user
/// that are not blank once trimmed, and a port that is a number up to 65535.
pub proof fn submittable_forms_have_their_fields(f: ConnectionForm)
    requires
        can_submit_spec(f),
    ensures
        trim_spec(f.name@).len() > 0,
        trim_spec(f.host@).len() > 0,
        trim_spec(f.database@).len() > 0,
        trim_spec(f.username@).len() > 0,
        parse_unsigned_spec(trim_spec(f.port@), 65535) is Some,
{
}

/// With SSH on, a form that can be submitted has an SSH host and user that
/// are not blank, an SSH port that is a number, and a private key path when
/// the key is the method.
pub proof fn submittable_tunnels_have_their_fields(f: ConnectionForm)
    requires
        can_submit_spec(f),
        f.ssh_enabled,
    ensures
        trim_spec(f.ssh_host@).len() > 0,
        trim_spec(f.ssh_username@).len() > 0,
        parse_unsigned_spec(trim_spec(f.ssh_port@), 65535) is Some,
        f.ssh_auth_method == SshAuthMethod::PrivateKey ==> trim_spec(f.ssh_private_key_path@).len()
            > 0,
{
}

/// Blanking the database, the host, the name or the user of any form makes
/// it one that cannot be submitted.
pub proof fn blank_required_fields_block_submission(f: ConnectionForm, blank: String)
    requires
        trim_spec(blank@).len() == 0,
    ensures
        !can_submit_spec(ConnectionForm { database: blank, ..f }),
        !can_submit_spec(ConnectionForm { host: blank, ..f }),
        !can_submit_spec(ConnectionForm { name: blank, ..f }),
        !can_submit_spec(ConnectionForm { username: blank, ..f }),
{
}

/// With SSH off, the SSH fields do not decide whether a form can be
/// submitted.
pub proof fn ssh_fields_do_not_matter_without_ssh(f: ConnectionForm, g: ConnectionForm)
    requires
        !f.ssh_enabled,
        g == (ConnectionForm {
            ssh_host: g.ssh_host,
            ssh_port: g.ssh_port,
            ssh_username: g.ssh_username,
            ssh_auth_method: g.ssh_auth_method,
            ssh_private_key_path: g.ssh_private_key_path,
            ..f
        }),
    ensures
        can_submit_spec(f) == can_submit_spec(g),
{
}

fn is_filled(s: &String) -> (r: bool)
    ensures
        r == filled(s@),
{
    let t = trim(s.as_str());
    chars_of(t.as_str()).len() > 0
}

fn is_port(s: &String) -> (r: bool)
    ensures
        r == valid_port(s@),
{
    let t = trim(s.as_str());
    parse_unsigned(t.as_str(), 65535).is_some()
}

impl ConnectionForm {
    /// Whether the form can be submitted.
    pub fn can_submit(&self) -> (r: bool)
        ensures
            r == can_submit_spec(*self),
    {
        is_filled(&self.name) && is_filled(&self.host) && is_port(&self.port) && is_filled(
            &self.database,
        ) && is_filled(&self.username) && (!self.ssh_enabled || (is_filled(&self.ssh_host)
            && is_port(&self.ssh_port) && is_filled(&self.ssh_username) && match self.ssh_auth_method {
            SshAuthMethod::Password | SshAuthMethod::Agent => true,
            SshAuthMethod::PrivateKey => is_filled(&self.ssh_private_key_path),
        }))
    }
}

/// What is known about a saved password in the keyring.
#[derive(Clone, Copy, Debug, PartialEq, Eq, Structural)]
pub enum SavedPasswordState {
    Unknown,
    Available,
    Missing,
    Error,
}

/// Whether the keyring can store secrets.
#[derive(Clone, Debug)]
pub enum CredentialState {
    Checking,
    Available,
    Unavailable(String),
}

/// The messages of the dialog that change its state.
#[derive(Debug)]
pub enum ConnectionDialogMsg {
    NameChanged(String),
    HostChanged(String),
    PortChanged(String),
    DatabaseChanged(String),
    UsernameChanged(String),
    PasswordChanged(String),
    SavePasswordChanged(bool),
    SshEnabledChanged(bool),
    SshHostChanged(String),
    SshPortChanged(String),
    SshUsernameChanged(String),
    SshAuthMethodSelected(u32),
    SshPasswordChanged(String),
    SelectSshPrivateKeyFile,
    SshPrivateKeyFileSelected(String),
    SshKeyPassphraseChanged(String),
    SshSaveSecretChanged(bool),
    TrustSshHostKeyAndConnect(String),
    TrustSshHostKeyAndTest(String),
    TestConnection,
    Connect,
}

/// Why a connection test or attempt failed.
#[derive(Clone, Debug)]
pub enum ConnectionDialogError {
    Message(String),
    UntrustedSshHostKey(String),
}

/// The answers that come back to the dialog.
#[derive(Debug)]
pub enum ConnectionDialogAnswer {
    CredentialChecked(Result<(), String>),
    SavedPasswordChecked(Result<bool, String>),
    TestFinished(Result<(), ConnectionDialogError>),
    ConnectFinished(Result<(), ConnectionDialogError>),
}

/// Whether a trusted host key was accepted to test or to connect.
#[derive(Clone, Copy, Debug, PartialEq, Eq, Structural)]
pub enum SshHostKeyAction {
    Test,
    Connect,
}

/// What the dialog asks the application to do.
#[derive(Debug)]
pub enum ConnectionDialogAction {
    Nothing,
    /// Let the user pick a private key file, starting from this path.
    ChoosePrivateKeyFile(String),
    /// Validate the form and test the connection.
    TestConnection,
    /// Validate the form and connect.
    Connect,
    /// Show an error dialog with this heading (a message id) and detail.
    ShowError { heading: &'static str, detail: String },
    /// Ask whether to trust the SSH host key with this fingerprint.
    AskTrustHostKey { fingerprint: String, action: SshHostKeyAction },
    /// The test succeeded: tell the user, and save the trusted host key when
    /// asked to.
    TestSucceeded { save_trusted_host_key: bool },
    /// Connected: hand the connection over and close the dialog.
    Connected,
}

/// The state of the connection dialog.
#[derive(Debug)]
pub struct ConnectionDialog {
    pub form: ConnectionForm,
    pub is_busy: bool,
    pub saved_password_state: SavedPasswordState,
    pub credential_state: CredentialState,
    pub pending_trusted_host_key_save: bool,
    pub persist_trusted_host_key_after_test: bool,
}

/// Secrets can be stored.
pub open spec fn can_save_password_spec(s: ConnectionDialog) -> bool {
    s.credential_state is Available
}

/// The SSH secret can be stored: secrets can be, and the method has one.
pub open spec fn can_save_ssh_secret_spec(s: ConnectionDialog) -> bool {
    can_save_password_spec(s) && s.form.ssh_auth_method != SshAuthMethod::Agent
}

impl ConnectionDialog {
    /// A dialog for `form`; `editing` says whether it edits a saved
    /// connection.
    pub fn new(form: ConnectionForm, editing: bool) -> (r: ConnectionDialog)
        ensures
            r.form == form,
            !r.is_busy,
            r.saved_password_state == SavedPasswordState::Unknown,
            r.credential_state is Checking,
            !r.pending_trusted_host_key_save,
            r.persist_trusted_host_key_after_test == editing,
    {
        ConnectionDialog {
            form,
            is_busy: false,
            saved_password_state: SavedPasswordState::Unknown,
            credential_state: CredentialState::Checking,
            pending_trusted_host_key_save: false,
            persist_trusted_host_key_after_test: editing,
        }
    }

    /// Whether the password can be stored in the keyring.
    pub fn can_save_password(&self) -> (r: bool)
        ensures
            r == can_save_password_spec(*self),
    {
        match self.credential_state {
            CredentialState::Available => true,
            _ => false,
        }
    }

    /// Whether the SSH password or key passphrase can be stored.
    pub fn can_save_ssh_secret(&self) -> (r: bool)
        ensures
            r == can_save_ssh_secret_spec(*self),
    {
        self.can_save_password() && self.form.ssh_auth_method != SshAuthMethod::Agent
    }

    /// Whether the buttons that submit the form are active.
    pub fn can_send(&self) -> (r: bool)
        ensures
            r == (!self.is_busy && can_submit_spec(self.form)),
    {
        !self.is_busy && self.form.can_submit()
    }

    /// The status of the saved password is shown when the password is to be
    /// saved, none was typed, the connection is a saved one and the keyring
    /// said whether it holds one.
    pub fn shows_password_status(&self) -> (r: bool)
        ensures
            r == (self.form.save_password && self.form.password@.len() == 0 && self.form.id is Some
                && (self.saved_password_state == SavedPasswordState::Available
                || self.saved_password_state == SavedPasswordState::Missing)),
    {
        self.form.save_password && chars_of(self.form.password.as_str()).len() == 0
            && self.form.id.is_some() && (self.saved_password_state == SavedPasswordState::Available
            || self.saved_password_state == SavedPasswordState::Missing)
    }

    /// The message id of the status of the saved password.
    pub fn password_status_msgid(&self) -> (r: Option<&'static str>)
        ensures
            r == match self.saved_password_state {
                SavedPasswordState::Available => Some(
                    "Saved in Keyring. Enter a new password to replace it.",
                ),
                SavedPasswordState::Missing => Some(
                    "No saved password was found. Enter a password to save it.",
                ),
                _ => None::<&'static str>,
            },
    {
        match self.saved_password_state {
            SavedPasswordState::Available => Some(
                "Saved in Keyring. Enter a new password to replace it.",
            ),
            SavedPasswordState::Missing => Some(
                "No saved password was found. Enter a password to save it.",
            ),
            SavedPasswordState::Unknown | SavedPasswordState::Error => None,
        }
    }

    /// The message id under the "save password" switch.
    pub fn save_password_subtitle_msgid(&self) -> (r: &'static str)
        ensures
            r == match self.credential_state {
                CredentialState::Checking => "Checking password storage availability.",
                CredentialState::Available => "Store this password in Keyring.",
                CredentialState::Unavailable(_) => "Password storage is not available.",
            },
    {
        match self.credential_state {
            CredentialState::Checking => "Checking password storage availability.",
            CredentialState::Available => "Store this password in Keyring.",
            CredentialState::Unavailable(_) => "Password storage is not available.",
        }
    }

    /// The message id under the "save SSH secret" switch.
    pub fn save_ssh_secret_subtitle_msgid(&self) -> (r: &'static str)
        ensures
            r == match self.credential_state {
                CredentialState::Checking => "Checking password storage availability.",
                CredentialState::Available => "Store the SSH password or key passphrase in Keyring.",
                CredentialState::Unavailable(_) => "Password storage is not available.",
            },
    {
        match self.credential_state {
            CredentialState::Checking => "Checking password storage availability.",
            CredentialState::Available => "Store the SSH password or key passphrase in Keyring.",
            CredentialState::Unavailable(_) => "Password storage is not available.",
        }
    }

    /// The line under the private key row: the chosen path, or a note that
    /// none is chosen.
    pub fn private_key_path_subtitle(&self) -> (r: String)
        ensures
            self.form.ssh_private_key_path@.len() > 0 ==> r@ == self.form.ssh_private_key_path@,
            self.form.ssh_private_key_path@.len() == 0 ==> translated("No private key selected."@, r@),
    {
        if chars_of(self.form.ssh_private_key_path.as_str()).len() == 0 {
            return tr("No private key selected.");
        }
        self.form.ssh_private_key_path.clone()
    }

    /// The form was validated for a test or a connection with the saved id
    /// `id`: a new connection takes that id, and the dialog is busy.
    pub fn start_request(&mut self, id: String)
        ensures
            final(self).is_busy,
            old(self).form.id is None ==> final(self).form.id == Some(id),
            old(self).form.id is Some ==> final(self).form.id == old(self).form.id,
    {
        if self.form.id.is_none() {
            self.form.id = Some(id);
        }
        self.is_busy = true;
    }

    /// Applies an edit or a button press. Changing the SSH host or port
    /// forgets the trusted host key; the save switches stay off while
    /// secrets cannot be stored.
    pub fn update(&mut self, msg: ConnectionDialogMsg) -> (a: ConnectionDialogAction)
        ensures
            match msg {
                ConnectionDialogMsg::NameChanged(v) => *final(self) == (ConnectionDialog {
                    form: ConnectionForm { name: v, ..old(self).form },
                    ..*old(self)
                }) && a is Nothing,
                ConnectionDialogMsg::HostChanged(v) => *final(self) == (ConnectionDialog {
                    form: ConnectionForm { host: v, ..old(self).form },
                    ..*old(self)
                }) && a is Nothing,
                ConnectionDialogMsg::PortChanged(v) => *final(self) == (ConnectionDialog {
                    form: ConnectionForm { port: v, ..old(self).form },
                    ..*old(self)
                }) && a is Nothing,
                ConnectionDialogMsg::DatabaseChanged(v) => *final(self) == (ConnectionDialog {
                    form: ConnectionForm { database: v, ..old(self).form },
                    ..*old(self)
                }) && a is Nothing,
                ConnectionDialogMsg::UsernameChanged(v) => *final(self) == (ConnectionDialog {
                    form: ConnectionForm { username: v, ..old(self).form },
                    ..*old(self)
                }) && a is Nothing,
                ConnectionDialogMsg::PasswordChanged(v) => *final(self) == (ConnectionDialog {
                    form: ConnectionForm { password: v, ..old(self).form },
                    ..*old(self)
                }) && a is Nothing,
                ConnectionDialogMsg::SshEnabledChanged(v) => *final(self) == (ConnectionDialog {
                    form: ConnectionForm { ssh_enabled: v, ..old(self).form },
                    ..*old(self)
                }) && a is Nothing,
                ConnectionDialogMsg::SshUsernameChanged(v) => *final(self) == (ConnectionDialog {
                    form: ConnectionForm { ssh_username: v, ..old(self).form },
                    ..*old(self)
                }) && a is Nothing,
                ConnectionDialogMsg::SshPasswordChanged(v) => *final(self) == (ConnectionDialog {
                    form: ConnectionForm { ssh_password: v, ..old(self).form },
                    ..*old(self)
                }) && a is Nothing,
                ConnectionDialogMsg::SshPrivateKeyFileSelected(v) => *final(self) == (ConnectionDialog {
                    form: ConnectionForm { ssh_private_key_path: v, ..old(self).form },
                    ..*old(self)
                }) && a is Nothing,
                ConnectionDialogMsg::SshKeyPassphraseChanged(v) => *final(self) == (ConnectionDialog {
                    form: ConnectionForm { ssh_key_passphrase: v, ..old(self).form },
                    ..*old(self)
                }) && a is Nothing,
                ConnectionDialogMsg::SavePasswordChanged(v) => *final(self) == (ConnectionDialog {
                    form: ConnectionForm { save_password: v && can_save_password_spec(*old(self)), ..old(self).form },
                    ..*old(self)
                }) && a is Nothing,
                ConnectionDialogMsg::SshSaveSecretChanged(v) => *final(self) == (ConnectionDialog {
                    form: ConnectionForm { ssh_save_secret: v && can_save_ssh_secret_spec(*old(self)), ..old(self).form },
                    ..*old(self)
                }) && a is Nothing,
                ConnectionDialogMsg::SshAuthMethodSelected(i) => *final(self) == (ConnectionDialog {
                    form: ConnectionForm { ssh_auth_method: ssh_auth_method_from_index_spec(i), ..old(self).form },
                    ..*old(self)
                }) && a is Nothing,
                ConnectionDialogMsg::SshHostChanged(v) => a is Nothing && if old(self).form.ssh_host@ == v@ {
                    *final(self) == (ConnectionDialog {
                    form: ConnectionForm { ssh_host: v, ..old(self).form },
                    ..*old(self)
                })
                } else {
                    *final(self) == (ConnectionDialog {
                        form: ConnectionForm {
                            ssh_host: v,
                            ssh_host_key_fingerprint: None,
                            ..old(self).form
                        },
                        pending_trusted_host_key_save: false,
                        ..*old(self)
                    })
                },
                ConnectionDialogMsg::SshPortChanged(v) => a is Nothing && if old(self).form.ssh_port@ == v@ {
                    *final(self) == (ConnectionDialog {
                    form: ConnectionForm { ssh_port: v, ..old(self).form },
                    ..*old(self)
                })
                } else {
                    *final(self) == (ConnectionDialog {
                        form: ConnectionForm {
                            ssh_port: v,
                            ssh_host_key_fingerprint: None,
                            ..old(self).form
                        },
                        pending_trusted_host_key_save: false,
                        ..*old(self)
                    })
                },
                ConnectionDialogMsg::SelectSshPrivateKeyFile => *final(self) == *old(self) && (a matches ConnectionDialogAction::ChoosePrivateKeyFile(path) && path == old(self).form.ssh_private_key_path),
                ConnectionDialogMsg::TrustSshHostKeyAndConnect(fp) => a is Connect && *final(self) == (ConnectionDialog {
                    form: ConnectionForm { ssh_host_key_fingerprint: Some(fp), ..old(self).form },
                    ..*old(self)
                }),
                ConnectionDialogMsg::TrustSshHostKeyAndTest(fp) => a is TestConnection && *final(self) == (ConnectionDialog {
                    form: ConnectionForm { ssh_host_key_fingerprint: Some(fp), ..old(self).form },
                    pending_trusted_host_key_save: true,
                    ..*old(self)
                }),
                ConnectionDialogMsg::TestConnection => a is TestConnection && *final(self) == *old(self),
                ConnectionDialogMsg::Connect => a is Connect && *final(self) == *old(self),
            },
    {
        match msg {
            ConnectionDialogMsg::NameChanged(value) => self.form.name = value,
            ConnectionDialogMsg::HostChanged(value) => self.form.host = value,
            ConnectionDialogMsg::PortChanged(value) => self.form.port = value,
            ConnectionDialogMsg::DatabaseChanged(value) => self.form.database = value,
            ConnectionDialogMsg::UsernameChanged(value) => self.form.username = value,
            ConnectionDialogMsg::PasswordChanged(value) => self.form.password = value,
            ConnectionDialogMsg::SavePasswordChanged(value) => {
                self.form.save_password = value && self.can_save_password();
            },
            ConnectionDialogMsg::SshEnabledChanged(value) => self.form.ssh_enabled = value,
            ConnectionDialogMsg::SshHostChanged(value) => {
                if self.form.ssh_host != value {
                    self.form.ssh_host_key_fingerprint = None;
                    self.pending_trusted_host_key_save = false;
                }
                self.form.ssh_host = value;
            },
            ConnectionDialogMsg::SshPortChanged(value) => {
                if self.form.ssh_port != value {
                    self.form.ssh_host_key_fingerprint = None;
                    self.pending_trusted_host_key_save = false;
                }
                self.form.ssh_port = value;
            },
            ConnectionDialogMsg::SshUsernameChanged(value) => self.form.ssh_username = value,
            ConnectionDialogMsg::SshAuthMethodSelected(index) => {
                self.form.ssh_auth_method = ssh_auth_method_from_index(index);
            },
            ConnectionDialogMsg::SshPasswordChanged(value) => self.form.ssh_password = value,
            ConnectionDialogMsg::SelectSshPrivateKeyFile => {
                return ConnectionDialogAction::ChoosePrivateKeyFile(
                    self.form.ssh_private_key_path.clone(),
                );
            },
            ConnectionDialogMsg::SshPrivateKeyFileSelected(value) => {
                self.form.ssh_private_key_path = value;
            },
            ConnectionDialogMsg::SshKeyPassphraseChanged(value) => {
                self.form.ssh_key_passphrase = value;
            },
            ConnectionDialogMsg::SshSaveSecretChanged(value) => {
                self.form.ssh_save_secret = value && self.can_save_ssh_secret();
            },
            ConnectionDialogMsg::TrustSshHostKeyAndConnect(fingerprint) => {
                self.form.ssh_host_key_fingerprint = Some(fingerprint);
                return ConnectionDialogAction::Connect;
            },
            ConnectionDialogMsg::TrustSshHostKeyAndTest(fingerprint) => {
                self.form.ssh_host_key_fingerprint = Some(fingerprint);
                self.pending_trusted_host_key_save = true;
                return ConnectionDialogAction::TestConnection;
            },
            ConnectionDialogMsg::TestConnection => return ConnectionDialogAction::TestConnection,
            ConnectionDialogMsg::Connect => return ConnectionDialogAction::Connect,
        }
        ConnectionDialogAction::Nothing
    }

    /// Takes in an answer. Every answer ends the busy state. Without a
    /// keyring both save switches go off; a successful test saves a host key
    /// trusted for it only when the dialog edits a saved connection.
    pub fn take_answer(&mut self, answer: ConnectionDialogAnswer) -> (a: ConnectionDialogAction)
        ensures
            match answer {
                ConnectionDialogAnswer::CredentialChecked(Ok(_)) => a is Nothing && *final(self) == (ConnectionDialog {
                    is_busy: false,
                    credential_state: CredentialState::Available,
                    ..*old(self)
                }),
                ConnectionDialogAnswer::CredentialChecked(Err(e)) => a is Nothing && *final(self) == (ConnectionDialog {
                    form: ConnectionForm { save_password: false, ssh_save_secret: false, ..old(self).form },
                    is_busy: false,
                    credential_state: CredentialState::Unavailable(e),
                    ..*old(self)
                }),
                ConnectionDialogAnswer::SavedPasswordChecked(Ok(found)) => a is Nothing && *final(self) == (ConnectionDialog {
                    is_busy: false,
                    saved_password_state: if found {
                        SavedPasswordState::Available
                    } else {
                        SavedPasswordState::Missing
                    },
                    ..*old(self)
                }),
                ConnectionDialogAnswer::SavedPasswordChecked(Err(e)) => (a matches ConnectionDialogAction::ShowError { heading, detail }
                    && heading@ == "Reading the saved password failed"@ && detail == e) && *final(self) == (ConnectionDialog {
                    is_busy: false,
                    saved_password_state: SavedPasswordState::Error,
                    ..*old(self)
                }),
                ConnectionDialogAnswer::TestFinished(Ok(_)) => (a matches ConnectionDialogAction::TestSucceeded {
                    save_trusted_host_key,
                } && save_trusted_host_key == (old(self).pending_trusted_host_key_save
                    && old(self).persist_trusted_host_key_after_test)) && *final(self) == (ConnectionDialog {
                    is_busy: false,
                    pending_trusted_host_key_save: false,
                    ..*old(self)
                }),
                ConnectionDialogAnswer::TestFinished(Err(error)) => *final(self) == (ConnectionDialog {
                    is_busy: false,
                    ..*old(self)
                }) && match error {
                    ConnectionDialogError::UntrustedSshHostKey(fp) => (a matches ConnectionDialogAction::AskTrustHostKey { fingerprint, action }
                        && fingerprint == fp && action == SshHostKeyAction::Test),
                    ConnectionDialogError::Message(m) => (a matches ConnectionDialogAction::ShowError { heading, detail }
                        && heading@ == "Connection test failed"@ && detail == m),
                },
                ConnectionDialogAnswer::ConnectFinished(Ok(_)) => a is Connected && *final(self) == (ConnectionDialog {
                    is_busy: false,
                    ..*old(self)
                }),
                ConnectionDialogAnswer::ConnectFinished(Err(error)) => *final(self) == (ConnectionDialog {
                    is_busy: false,
                    ..*old(self)
                }) && match error {
                    ConnectionDialogError::UntrustedSshHostKey(fp) => (a matches ConnectionDialogAction::AskTrustHostKey { fingerprint, action }
                        && fingerprint == fp && action == SshHostKeyAction::Connect),
                    ConnectionDialogError::Message(m) => (a matches ConnectionDialogAction::ShowError { heading, detail }
                        && heading@ == "Connection failed"@ && detail == m),
                },
            },
    {
        self.is_busy = false;
        match answer {
            ConnectionDialogAnswer::CredentialChecked(Ok(())) => {
                self.credential_state = CredentialState::Available;
                ConnectionDialogAction::Nothing
            },
            ConnectionDialogAnswer::CredentialChecked(Err(error)) => {
                self.credential_state = CredentialState::Unavailable(error);
                self.form.save_password = false;
                self.form.ssh_save_secret = false;
                ConnectionDialogAction::Nothing
            },
            ConnectionDialogAnswer::SavedPasswordChecked(Ok(found)) => {
                self.saved_password_state = if found {
                    SavedPasswordState::Available
                } else {
                    SavedPasswordState::Missing
                };
                ConnectionDialogAction::Nothing
            },
            ConnectionDialogAnswer::SavedPasswordChecked(Err(error)) => {
                self.saved_password_state = SavedPasswordState::Error;
                ConnectionDialogAction::ShowError {
                    heading: "Reading the saved password failed",
                    detail: error,
                }
            },
            ConnectionDialogAnswer::TestFinished(Ok(())) => {
                let save = self.pending_trusted_host_key_save
                    && self.persist_trusted_host_key_after_test;
                self.pending_trusted_host_key_save = false;
                ConnectionDialogAction::TestSucceeded { save_trusted_host_key: save }
            },
            ConnectionDialogAnswer::TestFinished(Err(error)) => match error {
                ConnectionDialogError::UntrustedSshHostKey(fingerprint) => {
                    ConnectionDialogAction::AskTrustHostKey {
                        fingerprint,
                        action: SshHostKeyAction::Test,
                    }
                },
                ConnectionDialogError::Message(error) => ConnectionDialogAction::ShowError {
                    heading: "Connection test failed",
                    detail: error,
                },
            },
            ConnectionDialogAnswer::ConnectFinished(Ok(())) => ConnectionDialogAction::Connected,
            ConnectionDialogAnswer::ConnectFinished(Err(error)) => match error {
                ConnectionDialogError::UntrustedSshHostKey(fingerprint) => {
                    ConnectionDialogAction::AskTrustHostKey {
                        fingerprint,
                        action: SshHostKeyAction::Connect,
                    }
                },
                ConnectionDialogError::Message(error) => ConnectionDialogAction::ShowError {
                    heading: "Connection failed",
                    detail: error,
                },
            },
        }
    }
}

impl ConnectionDialogError {
    /// How the error is written: the message, or a note on the untrusted host
    /// key followed by its fingerprint.
    pub fn text(&self) -> (r: String)
        ensures
            self matches ConnectionDialogError::Message(m) ==> r@ == m@,
            self matches ConnectionDialogError::UntrustedSshHostKey(fp) ==> exists|note: Seq<char>|
                #![trigger translated("SSH host key is not trusted yet. Fingerprint:"@, note)]
                translated("SSH host key is not trusted yet. Fingerprint:"@, note) && r@ == note + " "@
                    + fp@,
    {
        match self {
            ConnectionDialogError::Message(message) => message.clone(),
            ConnectionDialogError::UntrustedSshHostKey(fingerprint) => {
                let mut r = tr("SSH host key is not trusted yet. Fingerprint:");
                let ghost note = r@;
                r.append(" ");
                r.append(fingerprint.as_str());
                assert(translated("SSH host key is not trusted yet. Fingerprint:"@, note));
                r
            },
        }
    }
}

} // verus!
