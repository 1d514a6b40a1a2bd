use pollua::version::{parse_lua_version, VersionError};

#[test]
fn plain_version() {
    assert_eq!(parse_lua_version("5.3.5"), Ok((5, 3, 5)));
}

#[test]
fn prefixed_and_padded_version() {
    assert_eq!(parse_lua_version("  Lua 5.3.6\n"), Ok((5, 3, 6)));
    assert_eq!(parse_lua_version("Lua5.1.0"), Ok((5, 1, 0)));
    assert_eq!(parse_lua_version("+5.+4.10"), Ok((5, 4, 10)));
}

#[test]
fn version_errors() {
    assert_eq!(parse_lua_version(""), Err(VersionError::InvalidMajor));
    assert_eq!(parse_lua_version("Lua"), Err(VersionError::InvalidMajor));
    assert_eq!(parse_lua_version("x.3.5"), Err(VersionError::InvalidMajor));
    assert_eq!(parse_lua_version("5"), Err(VersionError::MissingMinor));
    assert_eq!(parse_lua_version("5.a"), Err(VersionError::InvalidMinor));
    assert_eq!(parse_lua_version("5.3"), Err(VersionError::MissingPatch));
    assert_eq!(parse_lua_version("5.3."), Err(VersionError::InvalidPatch));
    assert_eq!(parse_lua_version("5.3.5.1"), Err(VersionError::TooManyParts));
    assert_eq!(parse_lua_version("5. 3.5"), Err(VersionError::InvalidMinor));
}

#[test]
fn version_number_limits() {
    assert_eq!(parse_lua_version("4294967295.0.0"), Ok((4294967295, 0, 0)));
    assert_eq!(
        parse_lua_version("4294967296.0.0"),
        Err(VersionError::InvalidMajor)
    );
    assert_eq!(
        parse_lua_version("5.99999999999999999999.0"),
        Err(VersionError::InvalidMinor)
    );
}
