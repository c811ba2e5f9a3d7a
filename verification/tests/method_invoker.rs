use demo::method_invoker::{
    get_future_site, logger_site, register_site, MethodTable, ReturnType, StaticMethodInvoker,
};

#[test]
fn call_sites_match_the_host_surface() {
    let s = logger_site();
    assert_eq!(s.class_name, "io/greptime/demo/utils/Logger");
    assert_eq!(s.method_name, "getLogger");
    assert_eq!(s.signature, "(Ljava/lang/String;)Lio/greptime/demo/utils/Logger;");
    assert_eq!(s.ret, ReturnType::Object);

    let s = register_site();
    assert_eq!(s.class_name, "io/greptime/demo/utils/AsyncRegistry");
    assert_eq!(s.method_name, "register");
    assert_eq!(s.signature, "()J");
    assert_eq!(s.ret, ReturnType::Long);

    let s = get_future_site();
    assert_eq!(s.class_name, "io/greptime/demo/utils/AsyncRegistry");
    assert_eq!(s.method_name, "get");
    assert_eq!(s.signature, "(J)Ljava/util/concurrent/CompletableFuture;");
    assert_eq!(s.ret, ReturnType::Object);
}

#[test]
fn a_site_is_resolved_exactly_once() {
    let first = StaticMethodInvoker::try_new(100, 200, ReturnType::Object);
    let second = StaticMethodInvoker::try_new(300, 400, ReturnType::Long);

    let mut t = MethodTable::new();
    assert_eq!(t.logger, None);
    t.install_logger(first);
    assert_eq!(t.logger, Some(first));
    // a racing second resolution is discarded: the winner stays
    t.install_logger(second);
    assert_eq!(t.logger, Some(first));

    t.install_register(second);
    t.install_get_future(first);
    t.install_register(first);
    t.install_get_future(second);
    assert_eq!(t.register, Some(second));
    assert_eq!(t.get_future, Some(first));
}
