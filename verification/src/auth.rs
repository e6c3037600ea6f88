//! Credentials and where they come from.

use vstd::prelude::*;

use crate::error::{AuthError, SnowflakeApiError};
use crate::text;

verus! {

/// Everything that is needed to open a session.
pub struct AuthArgs {
    pub account_identifier: String,
    pub warehouse: Option<String>,
    pub database: Option<String>,
    pub schema: Option<String>,
    pub username: String,
    pub role: Option<String>,
    pub auth_type: AuthType,
}

/// How to prove one's identity.
pub enum AuthType {
    Password(PasswordArgs),
    Certificate(CertificateArgs),
}

/// A password.
pub struct PasswordArgs {
    pub password: String,
}

/// A private key in PEM format.
pub struct CertificateArgs {
    pub private_key_pem: String,
}

/// The text of a credential.
pub enum AuthTypeView {
    Password(Seq<char>),
    Certificate(Seq<char>),
}

impl View for AuthType {
    type V = AuthTypeView;

    open spec fn view(&self) -> AuthTypeView {
        match *self {
            AuthType::Password(args) => AuthTypeView::Password(args.password@),
            AuthType::Certificate(args) => AuthTypeView::Certificate(args.private_key_pem@),
        }
    }
}

/// The texts of [`AuthArgs`].
#[verifier::ext_equal]
pub struct AuthArgsView {
    pub account_identifier: Seq<char>,
    pub warehouse: Option<Seq<char>>,
    pub database: Option<Seq<char>>,
    pub schema: Option<Seq<char>>,
    pub username: Seq<char>,
    pub role: Option<Seq<char>>,
    pub auth_type: AuthTypeView,
}

impl View for AuthArgs {
    type V = AuthArgsView;

    open spec fn view(&self) -> AuthArgsView {
        AuthArgsView {
            account_identifier: self.account_identifier@,
            warehouse: text::chars_of(self.warehouse),
            database: text::chars_of(self.database),
            schema: text::chars_of(self.schema),
            username: self.username@,
            role: text::chars_of(self.role),
            auth_type: self.auth_type@,
        }
    }
}

/// The value of an environment variable: that of the first pair with its name.
pub open spec fn env_value(vars: Seq<(String, String)>, name: Seq<char>) -> Option<Seq<char>>
    decreases vars.len(),
{
    if vars.len() == 0 {
        None
    } else if vars[0].0@ == name {
        Some(vars[0].1@)
    } else {
        env_value(vars.drop_first(), name)
    }
}

/// The credential in an environment; a password goes before a private key.
pub open spec fn env_auth_type(vars: Seq<(String, String)>) -> Option<AuthTypeView> {
    match env_value(vars, "SNOWFLAKE_PASSWORD"@) {
        Some(password) => Some(AuthTypeView::Password(password)),
        None => match env_value(vars, "SNOWFLAKE_PRIVATE_KEY"@) {
            Some(private_key_pem) => Some(AuthTypeView::Certificate(private_key_pem)),
            None => None,
        },
    }
}

/// What an environment gives: all arguments, or the name of what is missing. The account is
/// looked for first, then the user, then the credential.
pub open spec fn env_auth_args(vars: Seq<(String, String)>) -> Result<AuthArgsView, Seq<char>> {
    match env_value(vars, "SNOWFLAKE_ACCOUNT"@) {
        None => Err("SNOWFLAKE_ACCOUNT"@),
        Some(account_identifier) => match env_value(vars, "SNOWFLAKE_USER"@) {
            None => Err("SNOWFLAKE_USER"@),
            Some(username) => match env_auth_type(vars) {
                None => Err("SNOWFLAKE_PASSWORD or SNOWFLAKE_PRIVATE_KEY"@),
                Some(auth_type) => Ok(
                    AuthArgsView {
                        account_identifier,
                        warehouse: env_value(vars, "SNOWLFLAKE_WAREHOUSE"@),
                        database: env_value(vars, "SNOWFLAKE_DATABASE"@),
                        schema: env_value(vars, "SNOWFLAKE_SCHEMA"@),
                        username,
                        role: env_value(vars, "SNOWFLAKE_ROLE"@),
                        auth_type,
                    },
                ),
            },
        },
    }
}

/// Whether an error says that an environment variable is missing.
pub open spec fn is_missing_env(error: SnowflakeApiError, name: Seq<char>) -> bool {
    error matches SnowflakeApiError::AuthError(AuthError::MissingEnvArgument(missing))
        && missing@ == name
}

/// Whether arguments, or the error in their place, are what an environment gives.
pub open spec fn is_read_from(
    args: Result<AuthArgs, SnowflakeApiError>,
    vars: Seq<(String, String)>,
) -> bool {
    match args {
        Ok(args) => env_auth_args(vars) == Ok::<AuthArgsView, Seq<char>>(args@),
        Err(error) => env_auth_args(vars) matches Err(missing) && is_missing_env(error, missing),
    }
}

/// Looks an environment variable up.
fn env_var(vars: &Vec<(String, String)>, name: &str) -> (value: Option<String>)
    ensures
        text::chars_of(value) == env_value(vars@, name@),
{
    let wanted = name.to_owned();
    let mut i: usize = 0;
    proof {
        assert(vars@.skip(0) =~= vars@);
    }
    while i < vars.len()
        invariant
            i <= vars.len(),
            wanted@ == name@,
            env_value(vars@, name@) == env_value(vars@.skip(i as int), name@),
        decreases vars.len() - i,
    {
        proof {
            assert(vars@.skip(i as int).drop_first() =~= vars@.skip(i + 1));
        }
        if vars[i].0 == wanted {
            return Some(vars[i].1.clone());
        }
        i = i + 1;
    }
    None
}

/// The error for a missing environment variable.
fn missing_env(name: &str) -> (error: SnowflakeApiError)
    ensures
        is_missing_env(error, name@),
{
    SnowflakeApiError::from(AuthError::MissingEnvArgument(name.to_owned()))
}

impl AuthArgs {
    /// Reads the arguments from an environment, given as names and values.
    pub fn from_env(vars: &Vec<(String, String)>) -> (args: Result<AuthArgs, SnowflakeApiError>)
        ensures
            match env_auth_args(vars@) {
                Ok(found) => args matches Ok(args) && args@ == found,
                Err(missing) => args matches Err(error) && is_missing_env(error, missing),
            },
            is_read_from(args, vars@),
    {
        let auth_type = match env_var(vars, "SNOWFLAKE_PASSWORD") {
            Some(password) => Some(AuthType::Password(PasswordArgs { password })),
            None => match env_var(vars, "SNOWFLAKE_PRIVATE_KEY") {
                Some(private_key_pem) => Some(
                    AuthType::Certificate(CertificateArgs { private_key_pem }),
                ),
                None => None,
            },
        };
        let account_identifier = match env_var(vars, "SNOWFLAKE_ACCOUNT") {
            Some(account_identifier) => account_identifier,
            None => {
                return Err(missing_env("SNOWFLAKE_ACCOUNT"));
            },
        };
        let username = match env_var(vars, "SNOWFLAKE_USER") {
            Some(username) => username,
            None => {
                return Err(missing_env("SNOWFLAKE_USER"));
            },
        };
        let auth_type = match auth_type {
            Some(auth_type) => auth_type,
            None => {
                return Err(missing_env("SNOWFLAKE_PASSWORD or SNOWFLAKE_PRIVATE_KEY"));
            },
        };
        Ok(
            AuthArgs {
                account_identifier,
                warehouse: env_var(vars, "SNOWLFLAKE_WAREHOUSE"),
                database: env_var(vars, "SNOWFLAKE_DATABASE"),
                schema: env_var(vars, "SNOWFLAKE_SCHEMA"),
                username,
                role: env_var(vars, "SNOWFLAKE_ROLE"),
                auth_type,
            },
        )
    }
}

// ---------------------------------------------------------------------------
// Laws
// ---------------------------------------------------------------------------

/// An account, a user and a credential of either kind are all that an environment needs to
/// give.
pub proof fn law_account_user_and_credential_suffice(vars: Seq<(String, String)>)
    ensures
        env_auth_args(vars) is Ok <==> {
            &&& env_value(vars, "SNOWFLAKE_ACCOUNT"@) is Some
            &&& env_value(vars, "SNOWFLAKE_USER"@) is Some
            &&& env_value(vars, "SNOWFLAKE_PASSWORD"@) is Some || env_value(
                vars,
                "SNOWFLAKE_PRIVATE_KEY"@,
            ) is Some
        },
{
}

/// A password goes before a private key.
pub proof fn law_password_goes_first(vars: Seq<(String, String)>)
    requires
        env_auth_args(vars) is Ok,
        env_value(vars, "SNOWFLAKE_PASSWORD"@) is Some,
    ensures
        env_auth_args(vars)->Ok_0.auth_type == AuthTypeView::Password(
            env_value(vars, "SNOWFLAKE_PASSWORD"@)->0,
        ),
{
}

/// A variable has the value of the first pair with exactly its name.
pub proof fn law_the_first_pair_of_a_name_counts(
    vars: Seq<(String, String)>,
    name: Seq<char>,
    at: int,
)
    requires
        0 <= at < vars.len(),
        vars[at].0@ == name,
        forall|i: int| 0 <= i < at ==> #[trigger] vars[i].0@ != name,
    ensures
        env_value(vars, name) == Some(vars[at].1@),
    decreases vars.len(),
{
    if at > 0 {
        let rest = vars.drop_first();
        assert(vars[0].0@ != name);
        assert forall|i: int| 0 <= i < at - 1 implies #[trigger] rest[i].0@ != name by {
            assert(rest[i] == vars[i + 1]);
        }
        law_the_first_pair_of_a_name_counts(rest, name, at - 1);
    }
}

/// A variable without a pair of its name has no value.
pub proof fn law_no_pair_gives_no_value(vars: Seq<(String, String)>, name: Seq<char>)
    requires
        forall|i: int| 0 <= i < vars.len() ==> #[trigger] vars[i].0@ != name,
    ensures
        env_value(vars, name) is None,
    decreases vars.len(),
{
    if vars.len() > 0 {
        let rest = vars.drop_first();
        assert(vars[0].0@ != name);
        assert forall|i: int| 0 <= i < rest.len() implies #[trigger] rest[i].0@ != name by {
            assert(rest[i] == vars[i + 1]);
        }
        law_no_pair_gives_no_value(rest, name);
    }
}

/// Arguments from an environment hold each setting as its own variable gives it, whatever the
/// credential is: a setting is there exactly where its variable is set, and has its value.
pub proof fn law_every_setting_comes_from_its_variable(
    vars: Seq<(String, String)>,
    args: AuthArgs,
)
    requires
        env_auth_args(vars) == Ok::<AuthArgsView, Seq<char>>(args@),
    ensures
        env_value(vars, "SNOWFLAKE_ACCOUNT"@) == Some(args.account_identifier@),
        env_value(vars, "SNOWFLAKE_USER"@) == Some(args.username@),
        args.warehouse is Some <==> env_value(vars, "SNOWLFLAKE_WAREHOUSE"@) is Some,
        args.warehouse matches Some(s) ==> env_value(vars, "SNOWLFLAKE_WAREHOUSE"@) == Some(s@),
        args.database is Some <==> env_value(vars, "SNOWFLAKE_DATABASE"@) is Some,
        args.database matches Some(s) ==> env_value(vars, "SNOWFLAKE_DATABASE"@) == Some(s@),
        args.schema is Some <==> env_value(vars, "SNOWFLAKE_SCHEMA"@) is Some,
        args.schema matches Some(s) ==> env_value(vars, "SNOWFLAKE_SCHEMA"@) == Some(s@),
        args.role is Some <==> env_value(vars, "SNOWFLAKE_ROLE"@) is Some,
        args.role matches Some(s) ==> env_value(vars, "SNOWFLAKE_ROLE"@) == Some(s@),
        args.auth_type is Password <==> env_value(vars, "SNOWFLAKE_PASSWORD"@) is Some,
        args.auth_type matches AuthType::Password(password) ==> env_value(
            vars,
            "SNOWFLAKE_PASSWORD"@,
        ) == Some(password.password@),
        args.auth_type matches AuthType::Certificate(certificate) ==> env_value(
            vars,
            "SNOWFLAKE_PRIVATE_KEY"@,
        ) == Some(certificate.private_key_pem@),
{
    assert(args@.warehouse == text::chars_of(args.warehouse));
    assert(args@.database == text::chars_of(args.database));
    assert(args@.schema == text::chars_of(args.schema));
    assert(args@.role == text::chars_of(args.role));
}

/// An incomplete environment gives the name of what is missing: the account before all else,
/// then the user, then a credential of either kind.
pub proof fn law_what_is_missing_is_named(
    vars: Seq<(String, String)>,
    error: SnowflakeApiError,
    name: Seq<char>,
)
    requires
        env_auth_args(vars) == Err::<AuthArgsView, Seq<char>>(name),
        is_missing_env(error, name),
    ensures
        error matches SnowflakeApiError::AuthError(AuthError::MissingEnvArgument(missing))
            && missing@ == (if env_value(vars, "SNOWFLAKE_ACCOUNT"@) is None {
            "SNOWFLAKE_ACCOUNT"@
        } else if env_value(vars, "SNOWFLAKE_USER"@) is None {
            "SNOWFLAKE_USER"@
        } else {
            "SNOWFLAKE_PASSWORD or SNOWFLAKE_PRIVATE_KEY"@
        }),
{
}

/// Reading an environment succeeds exactly where it gives an account, a user and a credential;
/// then every setting is that of its own variable, and else the first that is missing is
/// named.
pub proof fn law_an_environment_is_read_variable_by_variable(
    args: Result<AuthArgs, SnowflakeApiError>,
    vars: Seq<(String, String)>,
)
    requires
        is_read_from(args, vars),
    ensures
        args is Ok <==> env_value(vars, "SNOWFLAKE_ACCOUNT"@) is Some && env_value(
            vars,
            "SNOWFLAKE_USER"@,
        ) is Some && (env_value(vars, "SNOWFLAKE_PASSWORD"@) is Some || env_value(
            vars,
            "SNOWFLAKE_PRIVATE_KEY"@,
        ) is Some),
        args matches Ok(args) ==> {
            &&& Some(args.account_identifier@) == env_value(vars, "SNOWFLAKE_ACCOUNT"@)
            &&& Some(args.username@) == env_value(vars, "SNOWFLAKE_USER"@)
            &&& text::chars_of(args.warehouse) == env_value(vars, "SNOWLFLAKE_WAREHOUSE"@)
            &&& text::chars_of(args.database) == env_value(vars, "SNOWFLAKE_DATABASE"@)
            &&& text::chars_of(args.schema) == env_value(vars, "SNOWFLAKE_SCHEMA"@)
            &&& text::chars_of(args.role) == env_value(vars, "SNOWFLAKE_ROLE"@)
            &&& args.auth_type matches AuthType::Password(password) ==> Some(password.password@)
                == env_value(vars, "SNOWFLAKE_PASSWORD"@)
            &&& args.auth_type matches AuthType::Certificate(certificate) ==> env_value(
                vars,
                "SNOWFLAKE_PASSWORD"@,
            ) is None && Some(certificate.private_key_pem@) == env_value(
                vars,
                "SNOWFLAKE_PRIVATE_KEY"@,
            )
        },
        args matches Err(error) ==> (error matches SnowflakeApiError::AuthError(
            AuthError::MissingEnvArgument(missing),
        ) && missing@ == (if env_value(vars, "SNOWFLAKE_ACCOUNT"@) is None {
            "SNOWFLAKE_ACCOUNT"@
        } else if env_value(vars, "SNOWFLAKE_USER"@) is None {
            "SNOWFLAKE_USER"@
        } else {
            "SNOWFLAKE_PASSWORD or SNOWFLAKE_PRIVATE_KEY"@
        })),
{
    law_account_user_and_credential_suffice(vars);
    match args {
        Ok(args) => {
            law_every_setting_comes_from_its_variable(vars, args);
        },
        Err(error) => {
            law_what_is_missing_is_named(vars, error, env_auth_args(vars)->Err_0);
        },
    }
}

} // verus!
