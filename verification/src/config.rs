//! The configuration, and how it is found among the variables of an
//! environment.

use vstd::prelude::*;
use crate::error::Error;

verus! {

/// The variable that holds the bearer token.
pub const TOKEN_VARIABLE: &'static str = "GRAPHQL_API_TOKEN";

/// The field of the configuration that the variable fills, as the
/// diagnostics name it: the variable's name is its uppercase form.
pub const TOKEN_FIELD: &'static str = "graphql_api_token";

/// The diagnostic when the variable is absent.
pub const MISSING_VALUE_DETAIL: &'static str = "MissingValue(\"graphql_api_token\")";

/// The diagnostic when the variable stands in the list more than once.
pub const DUPLICATE_FIELD_DETAIL: &'static str =
    "Custom(\"duplicate field `graphql_api_token`\")";

/// The credentials for the API.
pub struct Config {
    /// The bearer token, as the environment gave it.
    pub graphql_api_token: String,
}

/// An environment as mathematics: its variables in order, each a name and a
/// value.
pub type Environment = Seq<(Seq<char>, Seq<char>)>;

/// The environment that a list of variables stands for.
pub open spec fn environment_of(vars: Seq<(String, String)>) -> Environment {
    vars.map_values(|v: (String, String)| (v.0@, v.1@))
}

/// Whether a variable of this name fills the token: only the variable
/// `GRAPHQL_API_TOKEN` does, letter for letter. A name that differs from it,
/// be it by case alone, is that of another variable.
pub open spec fn names_token(name: Seq<char>) -> bool {
    name == TOKEN_VARIABLE@
}

/// The values of the variables that fill the token, in the order of the
/// environment.
pub open spec fn token_values(env: Environment) -> Seq<Seq<char>> {
    env.filter(|v: (Seq<char>, Seq<char>)| names_token(v.0)).map_values(
        |v: (Seq<char>, Seq<char>)| v.1,
    )
}

/// What loading gives: the token where the variable stands in the
/// environment once, else the diagnostic of what is wrong.
pub open spec fn loaded(env: Environment) -> Result<Seq<char>, Seq<char>> {
    let values = token_values(env);
    if values.len() == 1 {
        Ok(values[0])
    } else if values.len() == 0 {
        Err(MISSING_VALUE_DETAIL@)
    } else {
        Err(DUPLICATE_FIELD_DETAIL@)
    }
}

/// Tells whether a variable of this name fills the token.
pub fn is_token_name(name: &String) -> (yes: bool)
    ensures
        yes == names_token(name@),
{
    *name == String::from_str(TOKEN_VARIABLE)
}

/// Taking one more variable into account appends its value where its name
/// fills the token.
proof fn lemma_token_values_step(env: Environment, i: int)
    requires
        0 <= i < env.len(),
    ensures
        token_values(env.take(i + 1)) == if names_token(env[i].0) {
            token_values(env.take(i)).push(env[i].1)
        } else {
            token_values(env.take(i))
        },
{
    let fills = |v: (Seq<char>, Seq<char>)| names_token(v.0);
    let value = |v: (Seq<char>, Seq<char>)| v.1;
    assert(env.take(i + 1) =~= env.take(i).push(env[i]));
    env.take(i).lemma_filter_push(env[i], fills);
    if names_token(env[i].0) {
        assert(env.take(i).filter(fills).push(env[i]).map_values(value) =~= env.take(i).filter(
            fills,
        ).map_values(value).push(env[i].1));
    }
}

/// Loads the configuration from the variables of an environment. The token
/// is the value of the variable `GRAPHQL_API_TOKEN`, taken as it stands, an
/// empty one too; every other variable is ignored. Where the variable is
/// absent, or stands in the list more than once, loading fails and the
/// error says which.
pub fn load_config(vars: &Vec<(String, String)>) -> (result: Result<Config, Error>)
    ensures
        match result {
            Ok(config) => loaded(environment_of(vars@)) == Ok::<Seq<char>, Seq<char>>(
                config.graphql_api_token@,
            ),
            Err(error) => error matches Error::MissingVariables(detail) && loaded(
                environment_of(vars@),
            ) == Err::<Seq<char>, Seq<char>>(detail@),
        },
{
    let ghost env = environment_of(vars@);
    let mut token: Option<String> = None;
    let mut repeated = false;
    let mut i: usize = 0;
    proof {
        assert(env.take(0) =~= Seq::empty());
        reveal(Seq::filter);
    }
    while i < vars.len()
        invariant
            i <= vars.len(),
            env == environment_of(vars@),
            env.len() == vars.len(),
            repeated <==> token_values(env.take(i as int)).len() >= 2,
            !repeated ==> (match token {
                Some(value) => token_values(env.take(i as int)) == seq![value@],
                None => token_values(env.take(i as int)).len() == 0,
            }),
        decreases vars.len() - i,
    {
        proof {
            lemma_token_values_step(env, i as int);
        }
        if is_token_name(&vars[i].0) {
            if token.is_some() {
                repeated = true;
            } else {
                token = Some(vars[i].1.clone());
            }
        }
        i += 1;
    }
    proof {
        assert(env.take(vars.len() as int) =~= env);
    }
    if repeated {
        Err(Error::MissingVariables(String::from_str(DUPLICATE_FIELD_DETAIL)))
    } else {
        match token {
            Some(value) => Ok(Config { graphql_api_token: value }),
            None => Err(Error::MissingVariables(String::from_str(MISSING_VALUE_DETAIL))),
        }
    }
}

/// An environment in which no variable fills the token gives no values.
proof fn lemma_no_names_no_values(env: Environment)
    requires
        forall|j: int| 0 <= j < env.len() ==> (#[trigger] env[j]).0 != TOKEN_VARIABLE@,
    ensures
        token_values(env).len() == 0,
{
    let fills = |v: (Seq<char>, Seq<char>)| names_token(v.0);
    assert forall|j: int| 0 <= j < env.len() implies !fills(#[trigger] env[j]) by {
        assert(env[j].0 != TOKEN_VARIABLE@);
    }
    env.lemma_all_neg_filter_empty(fills);
}

/// Without the variable `GRAPHQL_API_TOKEN`, loading fails: whatever else
/// the environment holds, the result is the diagnostic of the missing value.
pub proof fn law_absent_token_fails(env: Environment)
    requires
        forall|j: int| 0 <= j < env.len() ==> (#[trigger] env[j]).0 != TOKEN_VARIABLE@,
    ensures
        loaded(env) == Err::<Seq<char>, Seq<char>>(MISSING_VALUE_DETAIL@),
{
    lemma_no_names_no_values(env);
}

/// With the variable `GRAPHQL_API_TOKEN` in the environment, loading
/// succeeds and gives its value as it stands, whatever the other variables
/// are, as long as none of them has that very name.
pub proof fn law_present_token_loads(env: Environment, i: int)
    requires
        0 <= i < env.len(),
        env[i].0 == TOKEN_VARIABLE@,
        forall|j: int| 0 <= j < env.len() && j != i ==> (#[trigger] env[j]).0 != TOKEN_VARIABLE@,
    ensures
        loaded(env) == Ok::<Seq<char>, Seq<char>>(env[i].1),
{
    let fills = |v: (Seq<char>, Seq<char>)| names_token(v.0);
    let before = env.take(i);
    let after = env.skip(i + 1);
    assert(env =~= before.push(env[i]) + after);
    assert forall|j: int| 0 <= j < before.len() implies (#[trigger] before[j]).0
        != TOKEN_VARIABLE@ by {
        assert(before[j] == env[j]);
    }
    assert forall|j: int| 0 <= j < after.len() implies (#[trigger] after[j]).0
        != TOKEN_VARIABLE@ by {
        assert(after[j] == env[j + i + 1]);
    }
    lemma_no_names_no_values(before);
    lemma_no_names_no_values(after);
    Seq::filter_distributes_over_add(before.push(env[i]), after, fills);
    before.lemma_filter_push(env[i], fills);
    assert(before.filter(fills) =~= Seq::empty());
    assert(after.filter(fills) =~= Seq::empty());
    assert(env.filter(fills) =~= seq![env[i]]);
    assert(token_values(env) =~= seq![env[i].1]);
}

} // verus!
