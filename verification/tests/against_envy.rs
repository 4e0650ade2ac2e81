use serde::de::{Deserialize, Deserializer, Error as _, IgnoredAny, MapAccess, Visitor};
use smashgg_query::config::load_config;
use smashgg_query::error::Error;

/// A record with the one field of the configuration, filled by `envy`. The
/// comparison is made on environments whose names are in upper case: `envy`
/// takes a name in any case, the library the variable's own name alone.
struct Probe {
    graphql_api_token: String,
}

struct ProbeVisitor;

impl<'de> Visitor<'de> for ProbeVisitor {
    type Value = Probe;

    fn expecting(&self, formatter: &mut std::fmt::Formatter) -> std::fmt::Result {
        formatter.write_str("struct Probe")
    }

    fn visit_map<A: MapAccess<'de>>(self, mut map: A) -> Result<Probe, A::Error> {
        let mut token: Option<String> = None;
        while let Some(key) = map.next_key::<String>()? {
            if key == "graphql_api_token" {
                if token.is_some() {
                    return Err(A::Error::duplicate_field("graphql_api_token"));
                }
                token = Some(map.next_value()?);
            } else {
                map.next_value::<IgnoredAny>()?;
            }
        }
        match token {
            Some(graphql_api_token) => Ok(Probe { graphql_api_token }),
            None => Err(A::Error::missing_field("graphql_api_token")),
        }
    }
}

impl<'de> Deserialize<'de> for Probe {
    fn deserialize<D: Deserializer<'de>>(deserializer: D) -> Result<Probe, D::Error> {
        deserializer.deserialize_struct("Probe", &["graphql_api_token"], ProbeVisitor)
    }
}

fn vars(pairs: &[(&str, &str)]) -> Vec<(String, String)> {
    pairs.iter().map(|(name, value)| (name.to_string(), value.to_string())).collect()
}

fn agrees(pairs: &[(&str, &str)]) {
    let env = vars(pairs);
    let ours = load_config(&env).map(|config| config.graphql_api_token);
    let theirs = envy::from_iter::<_, Probe>(env)
        .map(|probe| probe.graphql_api_token)
        .map_err(|error| Error::MissingVariables(format!("{:?}", error)));
    assert_eq!(ours, theirs);
}

#[test]
fn agrees_on_a_present_token() {
    agrees(&[("GRAPHQL_API_TOKEN", "abc123")]);
    agrees(&[("HOME", "/root"), ("GRAPHQL_API_TOKEN", "tök✓"), ("PATH", "/bin")]);
    agrees(&[("GRAPHQL_API_TOKEN", "")]);
    agrees(&[("GRAPHQL_API_TOKEN", "a,b, c\n\"d\"")]);
}

#[test]
fn agrees_on_an_absent_token() {
    agrees(&[]);
    agrees(&[("HOME", "/root")]);
    agrees(&[("GRAPHQL_API_TOKEN_", "x"), ("_GRAPHQL_API_TOKEN", "y"), ("", "z")]);
}

#[test]
fn agrees_on_a_repeated_token() {
    agrees(&[("GRAPHQL_API_TOKEN", "a"), ("GRAPHQL_API_TOKEN", "a")]);
    agrees(&[("GRAPHQL_API_TOKEN", "a"), ("X", "1"), ("GRAPHQL_API_TOKEN", "b"), ("Y", "2")]);
    agrees(&[
        ("GRAPHQL_API_TOKEN", "a"),
        ("GRAPHQL_API_TOKEN", "b"),
        ("GRAPHQL_API_TOKEN", "c"),
    ]);
}

#[test]
fn takes_no_name_in_another_case() {
    let env = vars(&[("graphql_api_token", "x")]);
    assert!(envy::from_iter::<_, Probe>(env.clone()).is_ok());
    assert_eq!(
        load_config(&env).map(|config| config.graphql_api_token),
        Err(Error::MissingVariables("MissingValue(\"graphql_api_token\")".to_string()))
    );
}
