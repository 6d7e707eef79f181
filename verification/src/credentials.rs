//! The credential offered to a remote that asks for one.

use crate::backend::{backend_error_text, backend_failure};
use crate::config::{Context, GlobalOptionsView};
use crate::error::{ErrorKind, SyncError, SyncErrorView};
use crate::expand::{normalize, normalized, unset_variable_error};
use crate::systools::{
    get_home_dir,
    get_home_dir_env_var,
    home_dir_env_var,
    join_path,
    joined_path,
    lookup,
    Environment,
};
use vstd::prelude::*;

verus! {

/// An SSH key pair offered for a user: the paths of the two key files and,
/// where the configuration names a key, the passphrase to open it with.
#[derive(Debug, PartialEq, Eq)]
pub struct SshCredential {
    pub username: String,
    pub public_key: String,
    pub private_key: String,
    pub passphrase: Option<String>,
}

/// `SshCredential` as a plain value.
pub struct SshCredentialView {
    pub username: Seq<char>,
    pub public_key: Seq<char>,
    pub private_key: Seq<char>,
    pub passphrase: Option<Seq<char>>,
}

impl View for SshCredential {
    type V = SshCredentialView;

    open spec fn view(&self) -> SshCredentialView {
        SshCredentialView {
            username: self.username@,
            public_key: self.public_key@,
            private_key: self.private_key@,
            passphrase: match self.passphrase {
                Some(passphrase) => Some(passphrase@),
                None => None,
            },
        }
    }
}

/// What is reported where the remote URL names no user.
pub open spec fn missing_username_error() -> SyncErrorView {
    SyncErrorView { kind: ErrorKind::AuthError, detail: "missing username in URL"@ }
}

/// What is reported where no key is configured and the home directory, in
/// which the default key would lie, is unknown.
pub open spec fn missing_home_error(home_var: Seq<char>) -> SyncErrorView {
    SyncErrorView { kind: ErrorKind::AuthError, detail: home_var + " not set"@ }
}

/// The credential for a remote, or the error in its place.
///
/// With a key configured, the two key paths are expanded as path
/// expressions, the public one first, and the passphrase in force goes
/// with them; without a user name in the URL there is no credential. With
/// no key configured, the key pair is `id_rsa` under `.ssh` in the home
/// directory, without passphrase; there the home directory is looked for
/// before the user name.
pub open spec fn credential_for(
    options: GlobalOptionsView,
    passphrase: Seq<char>,
    env: Seq<(Seq<char>, Seq<char>)>,
    home_var: Seq<char>,
    user_from_url: Option<Seq<char>>,
) -> Result<SshCredentialView, SyncErrorView> {
    match options.ssh {
        Some(ssh) => match user_from_url {
            None => Err(missing_username_error()),
            Some(username) => match normalized(ssh.public, env, home_var) {
                Err(variable) => Err(unset_variable_error(variable)),
                Ok(public_key) => match normalized(ssh.private, env, home_var) {
                    Err(variable) => Err(unset_variable_error(variable)),
                    Ok(private_key) => Ok(
                        SshCredentialView {
                            username,
                            public_key,
                            private_key,
                            passphrase: Some(passphrase),
                        },
                    ),
                },
            },
        },
        None => match lookup(env, home_var) {
            None => Err(missing_home_error(home_var)),
            Some(home) => match user_from_url {
                None => Err(missing_username_error()),
                Some(username) => {
                    let base = joined_path(home, ".ssh"@);
                    Ok(
                        SshCredentialView {
                            username,
                            public_key: joined_path(base, "id_rsa.pub"@),
                            private_key: joined_path(base, "id_rsa"@),
                            passphrase: None,
                        },
                    )
                },
            },
        },
    }
}

/// The key pair to offer to a remote whose URL names the user
/// `user_from_url`, under the configuration and passphrase in force.
pub fn credential_request(
    context: &Context,
    env: &Environment,
    user_from_url: Option<&str>,
) -> (offer: Result<SshCredential, SyncError>)
    ensures
        match offer {
            Ok(credential) => credential_for(
                context.options_in_force(),
                context.passphrase_in_force(),
                env@,
                home_dir_env_var(context.platform),
                crate::text::option_text(user_from_url),
            ) == Ok::<SshCredentialView, SyncErrorView>(credential@),
            Err(error) => credential_for(
                context.options_in_force(),
                context.passphrase_in_force(),
                env@,
                home_dir_env_var(context.platform),
                crate::text::option_text(user_from_url),
            ) == Err::<SshCredentialView, SyncErrorView>(error@),
        },
{
    let options = context.get_global_options();
    match options.ssh {
        Some(ssh) => match user_from_url {
            None => Err(SyncError::new(ErrorKind::AuthError, "missing username in URL")),
            Some(username) => {
                let public_key = match normalize(ssh.public.as_str(), context.platform, env) {
                    Ok(path) => path,
                    Err(error) => {
                        return Err(error);
                    },
                };
                let private_key = match normalize(ssh.private.as_str(), context.platform, env) {
                    Ok(path) => path,
                    Err(error) => {
                        return Err(error);
                    },
                };
                Ok(
                    SshCredential {
                        username: username.to_owned(),
                        public_key,
                        private_key,
                        passphrase: Some(context.get_passphrase()),
                    },
                )
            },
        },
        None => match get_home_dir(context.platform, env) {
            None => {
                let mut detail = get_home_dir_env_var(context.platform).to_owned();
                detail.append(" not set");
                Err(SyncError { kind: ErrorKind::AuthError, detail })
            },
            Some(home) => match user_from_url {
                None => Err(SyncError::new(ErrorKind::AuthError, "missing username in URL")),
                Some(username) => {
                    let base = join_path(home.as_str(), ".ssh");
                    Ok(
                        SshCredential {
                            username: username.to_owned(),
                            public_key: join_path(base.as_str(), "id_rsa.pub"),
                            private_key: join_path(base.as_str(), "id_rsa"),
                            passphrase: None,
                        },
                    )
                },
            },
        },
    }
}

/// A credential as the version-control backend takes it.
#[verifier::external_type_specification]
#[verifier::external_body]
pub struct ExCred(git2::Cred);

/// Some text of the credential holds the character NUL, which no text
/// handed to the backend may hold.
pub open spec fn holds_nul(credential: SshCredentialView) -> bool {
    ||| credential.username.contains('\0')
    ||| credential.public_key.contains('\0')
    ||| credential.private_key.contains('\0')
    ||| credential.passphrase matches Some(passphrase) && passphrase.contains('\0')
}

/// Calls `git2::Cred::ssh_key` with the user name, the two key paths and
/// the passphrase of `request`. The call copies its arguments into a
/// credential object and reads no key file. The contract claims that it
/// fails where an argument holds a NUL character and succeeds on every
/// other request: turning a text into a C string is all that can refuse,
/// short of the process running out of memory.
#[verifier::external_body]
fn ssh_key_credential(request: &SshCredential) -> (made: Result<git2::Cred, git2::Error>)
    ensures
        made is Ok <==> !holds_nul(request@),
{
    git2::Cred::ssh_key(
        request.username.as_str(),
        Some(std::path::Path::new(request.public_key.as_str())),
        std::path::Path::new(request.private_key.as_str()),
        request.passphrase.as_deref(),
    )
}

/// What `credentials` hands back once the backend has answered: the
/// credential that it made, or its failure as a `BackendError`.
pub fn credential_outcome(detail: Result<git2::Cred, String>) -> (offer: Result<
    git2::Cred,
    SyncError,
>)
    ensures
        match detail {
            Ok(credential) => offer == Ok::<git2::Cred, SyncError>(credential),
            Err(text) => offer matches Err(error) && error@ == (SyncErrorView {
                kind: ErrorKind::BackendError,
                detail: text@,
            }),
        },
{
    match detail {
        Ok(credential) => Ok(credential),
        Err(text) => Err(backend_failure(text)),
    }
}

/// The credential to hand to the backend when a remote asks for one. The
/// key pair is chosen as `credential_request` says, and every error of
/// that choice is returned as it is. The backend then makes the credential
/// object from the chosen key pair: it does so unless a text of the key
/// pair holds a NUL character, which comes back as a `BackendError`.
pub fn credentials(context: &Context, env: &Environment, user_from_url: Option<&str>) -> (offer:
    Result<git2::Cred, SyncError>)
    ensures
        match credential_for(
            context.options_in_force(),
            context.passphrase_in_force(),
            env@,
            home_dir_env_var(context.platform),
            crate::text::option_text(user_from_url),
        ) {
            Err(refusal) => offer matches Err(error) && error@ == refusal,
            Ok(request) => {
                &&& offer is Ok <==> !holds_nul(request)
                &&& offer matches Err(error) ==> error.kind == ErrorKind::BackendError
            },
        },
{
    let request = match credential_request(context, env, user_from_url) {
        Ok(request) => request,
        Err(error) => {
            return Err(error);
        },
    };
    let made = match ssh_key_credential(&request) {
        Ok(credential) => Ok(credential),
        Err(failure) => Err(backend_error_text(&failure)),
    };
    credential_outcome(made)
}

} // verus!
