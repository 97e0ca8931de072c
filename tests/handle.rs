use luastate::lua_state::{LuaState, LUA_TNIL, LUA_TNONE, LUA_TNUMBER, LUA_TTHREAD, LUA_TUSERDATA};

#[test]
fn from_ptr_never_releases() {
    let mut h = LuaState::from_ptr(0x1000);
    assert!(!h.owns());
    assert_eq!(h.get_state(), 0x1000);
    assert_eq!(h.release(), None);
    assert_eq!(h.release(), None);
}

#[test]
fn owning_releases_exactly_once() {
    let mut h = LuaState::owning(0x2000).unwrap();
    assert!(h.owns());
    assert_eq!(h.release(), Some(0x2000));
    assert!(!h.owns());
    assert_eq!(h.release(), None);
    assert_eq!(h.get_state(), 0x2000);
}

#[test]
fn owning_null_is_refused() {
    assert!(LuaState::owning(0).is_none());
}

#[test]
fn parent_and_child_release_independently() {
    let mut parent = LuaState::owning(0x3000).unwrap();
    let mut child = LuaState::owning(0x4000).unwrap();
    assert_eq!(parent.release(), Some(0x3000));
    assert!(child.owns());
    assert_eq!(child.release(), Some(0x4000));
    assert_eq!(parent.release(), None);
}

#[test]
fn predicates_read_engine_answers() {
    let mut h = LuaState::from_ptr(0x10);
    assert!(h.isnumber(1));
    assert!(!h.isnumber(0));
    assert!(h.isstring(-3));
    assert!(!h.isstring(0));
    assert!(h.iscfunction(1));
    assert!(!h.isinteger(0));
    assert!(h.isuserdata(2));
}

#[test]
fn typename_matches_engine_names() {
    let mut h = LuaState::from_ptr(0x10);
    assert_eq!(h.typename(LUA_TNONE), "no value");
    assert_eq!(h.typename(LUA_TNIL), "nil");
    assert_eq!(h.typename(1), "boolean");
    assert_eq!(h.typename(2), "userdata");
    assert_eq!(h.typename(LUA_TNUMBER), "number");
    assert_eq!(h.typename(4), "string");
    assert_eq!(h.typename(5), "table");
    assert_eq!(h.typename(6), "function");
    assert_eq!(h.typename(LUA_TUSERDATA), "userdata");
    assert_eq!(h.typename(LUA_TTHREAD), "thread");
}
