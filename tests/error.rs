use explicit_error::{
    Cause, DomainError, Error, ErrorKind, ExitError, Fault, OptionFault,
    ResultCause, ResultError, ResultFault, ResultFaultWithContext, TraceStatus,
};

type ExitErr = Error<DomainError>;

fn my_error(flag: bool) -> Cause {
    Cause::new("MyError", &format!("MyError({})", flag), &format!("{}", flag))
}

fn my_error_default() -> Cause {
    my_error(true)
}

fn row_not_found() -> Cause {
    Cause::new(
        "sqlx::Error",
        "RowNotFound",
        "no rows returned by a query that expected to return at least one row",
    )
}

fn domain(source: Option<Cause>) -> DomainError {
    DomainError {
        output: ExitError::new("", 0),
        source,
    }
}

#[test]
fn is_domain() {
    assert!(!ExitErr::Fault(Fault::new()).is_domain());
    assert!(Error::from(ExitError::new("", 0)).is_domain());
}

#[test]
fn is_fault() {
    assert!(ExitErr::Fault(Fault::new()).is_fault());
    assert!(!Error::from(ExitError::new("", 0)).is_fault());
}

#[should_panic]
#[test]
fn unwrap_panic() {
    ExitErr::Fault(Fault::new()).unwrap();
}

#[test]
fn unwrap() {
    Error::from(ExitError::new("", 0)).unwrap();
}

#[should_panic]
#[test]
fn unwrap_fault_panic() {
    Error::from(ExitError::new("", 0)).unwrap_fault();
}

#[test]
fn unwrap_fault() {
    ExitErr::Fault(Fault::new()).unwrap_fault();
}

#[test]
fn errors_chain_debug() {
    let chain = Cause::new("Chain0", "Chain0(Chain1(MyError(true)))", "Chain1").with_source(
        Cause::new("Chain1", "Chain1(MyError(true))", "Chain1").with_source(my_error_default()),
    );
    assert_eq!(
        explicit_error::errors_chain_debug(&chain),
        "Chain0(Chain1(MyError(true)))->Chain1(MyError(true))->MyError(true)"
    );
}

#[test]
fn map_err_or_fault() {
    let closure = |e: Cause| match e.message == "true" {
        true => Ok(domain(None)),
        false => Err(e),
    };

    assert_eq!(Ok::<(), Cause>(()).map_err_or_fault(closure).unwrap(), ());

    assert!(Err::<(), _>(my_error_default())
        .map_err_or_fault(closure)
        .unwrap_err()
        .is_domain());

    assert!(Err::<(), _>(my_error(false))
        .map_err_or_fault(closure)
        .unwrap_err()
        .is_fault());
}

#[test]
fn or_fault_no_source() {
    assert_eq!(
        Err::<(), _>(())
            .or_fault_no_source()
            .unwrap_err()
            .backtrace_status(),
        TraceStatus::Disabled
    );
    assert!(Ok::<_, ()>(()).or_fault_no_source().is_ok());
}

#[test]
fn or_fault() {
    let fault = Err::<(), _>(my_error_default()).or_fault().unwrap_err();
    assert_eq!(fault.backtrace_status(), TraceStatus::Disabled);
    let source = fault.source.unwrap();
    assert!(source.is("MyError"));
    assert_eq!(source, my_error_default());

    assert!(Ok::<_, Cause>(()).or_fault().is_ok());
}

#[test]
fn or_fault_no_source_force() {
    assert_eq!(
        Err::<(), _>(())
            .or_fault_no_source_force()
            .unwrap_err()
            .backtrace_status(),
        TraceStatus::Captured
    );
    assert!(Ok::<_, ()>(()).or_fault_no_source_force().is_ok());
}

#[test]
fn or_fault_force() {
    let fault = Err::<(), _>(my_error_default()).or_fault_force().unwrap_err();
    assert_eq!(fault.backtrace_status(), TraceStatus::Captured);
    let source = fault.source.unwrap();
    assert!(source.is("MyError"));
    assert_eq!(source, my_error_default());

    assert!(Ok::<_, Cause>(()).or_fault_force().is_ok());
}

#[test]
fn try_map_on_source() {
    assert!(Err::<(), _>(ExitErr::Fault(Fault::new()))
        .try_map_on_source("MyError", |_| Error::from(ExitError::new("", 0)))
        .unwrap_err()
        .is_fault());

    assert!(
        Err::<(), _>(ExitErr::Fault(Fault::new().with_source(my_error_default())))
            .try_map_on_source("sqlx::Error", |_| Error::from(ExitError::new("", 0)))
            .unwrap_err()
            .is_fault()
    );

    assert!(
        Err::<(), _>(ExitErr::Fault(Fault::new().with_source(my_error_default())))
            .try_map_on_source("MyError", |_| Error::from(ExitError::new("", 0)))
            .unwrap_err()
            .is_domain()
    );

    assert!(Err::<(), _>(ExitErr::Domain(Box::new(domain(None))))
        .try_map_on_source("MyError", |_| Error::from(Fault::new()))
        .unwrap_err()
        .is_domain());

    assert!(
        Err::<(), _>(ExitErr::Domain(Box::new(domain(Some(my_error_default())))))
            .try_map_on_source("sqlx::Error", |_| Error::from(Fault::new()))
            .unwrap_err()
            .is_domain()
    );

    assert!(
        Err::<(), _>(ExitErr::Domain(Box::new(domain(Some(my_error_default())))))
            .try_map_on_source("MyError", |_| Error::from(Fault::new()))
            .unwrap_err()
            .is_fault()
    );
}

#[test]
fn result_with_context() {
    assert_eq!(
        Err::<(), _>(ExitErr::Fault(Fault::new()))
            .with_context("context")
            .unwrap_err()
            .context()
            .unwrap(),
        "context"
    );

    assert_eq!(
        Err::<(), _>(ExitErr::Domain(Box::new(domain(None))))
            .with_context("context")
            .unwrap_err()
            .context()
            .unwrap(),
        "context"
    );

    assert!(Ok::<(), Fault>(()).with_context("context").is_ok());
}

#[test]
fn unwrap_err_source() {
    assert_eq!(
        Err::<(), _>(ExitErr::Fault(Fault::new().with_source(my_error_default())))
            .unwrap_err()
            .downcast_source("MyError")
            .unwrap(),
        my_error_default()
    );
}

#[should_panic]
#[test]
fn unwrap_err_source_panic() {
    Err::<(), _>(ExitErr::Fault(Fault::new()))
        .unwrap_err()
        .downcast_source("MyError")
        .unwrap();
}

#[should_panic]
#[test]
fn unwrap_err_source_panic2() {
    Err::<(), _>(ExitErr::Fault(Fault::new().with_source(row_not_found())))
        .unwrap_err()
        .downcast_source("MyError")
        .unwrap();
}

#[test]
fn ok_or_fault() {
    assert_eq!(
        None::<()>.ok_or_fault().unwrap_err().backtrace_status(),
        TraceStatus::Disabled
    );
    assert_eq!(Some(()).ok_or_fault().unwrap(), ());
}

#[test]
fn ok_or_fault_force() {
    assert_eq!(
        None::<()>
            .ok_or_fault_force()
            .unwrap_err()
            .backtrace_status(),
        TraceStatus::Captured
    );
    assert_eq!(Some(()).ok_or_fault().unwrap(), ());
}

#[test]
fn result_fault_with_context() {
    assert_eq!(
        Err::<(), _>(Fault::new())
            .with_context("context")
            .unwrap_err()
            .context()
            .unwrap(),
        "context"
    );

    assert!(Ok::<(), Fault>(()).with_context("context").is_ok());
}

#[test]
fn error_context_of_both_cases() {
    assert_eq!(
        ExitErr::Fault(Fault::new().with_context("context")).context(),
        Some("context")
    );
    let output = ExitError::new("", 0).with_context("context");
    let e = ExitErr::Domain(Box::new(DomainError {
        output,
        source: None,
    }));
    assert_eq!(e.context(), Some("context"));
    assert_eq!(ExitErr::Fault(Fault::new()).context(), None);
}

#[test]
fn downcast_source_by_kind() {
    assert!(
        ExitErr::Fault(Fault::new().with_source(my_error_default()))
            .downcast_source("MyError")
            .is_some()
    );
    assert!(ExitErr::Domain(Box::new(domain(Some(my_error_default()))))
        .downcast_source("MyError")
        .is_some());
    assert!(ExitErr::Fault(Fault::new())
        .downcast_source("MyError")
        .is_none());
    let e = ExitErr::Fault(Fault::new().with_source(row_not_found()));
    assert!(e.downcast_source_ref("MyError").is_none());
    assert_eq!(e.downcast_source_ref("sqlx::Error"), Some(&row_not_found()));
}

#[test]
fn extract_cause_of_both_cases() {
    assert_eq!(
        ExitErr::Fault(Fault::new().with_source(my_error(false))).extract_cause(),
        Some(my_error(false))
    );
    assert_eq!(
        ExitErr::Domain(Box::new(domain(Some(my_error(true))))).extract_cause(),
        Some(my_error(true))
    );
    assert_eq!(ExitErr::Fault(Fault::new()).extract_cause(), None);
}

#[test]
fn classify_is_kept_by_with_context() {
    let fault = ExitErr::Fault(Fault::new());
    assert_eq!(fault.classify(), ErrorKind::Fault);
    assert_eq!(fault.with_context("x").classify(), ErrorKind::Fault);

    let dom = Error::from(ExitError::new("bad input", 2));
    assert_eq!(dom.classify(), ErrorKind::Domain);
    assert_eq!(dom.with_context("x").classify(), ErrorKind::Domain);
}

#[test]
fn with_context_twice_leaves_second() {
    let f = ExitErr::Fault(Fault::new().with_source(my_error(true)));
    let first = f.with_context("first");
    let second = first.with_context("second");
    assert_eq!(second.context(), Some("second"));
    assert!(second.is_fault());

    let d = Error::from(ExitError::new("m", 1));
    let result = d.with_context("first").with_context("second");
    assert_eq!(result.context(), Some("second"));
    assert!(result.is_domain());
}

#[test]
fn domain_round_trip() {
    let x = DomainError {
        output: ExitError::new("message", 3).with_context("ctx"),
        source: Some(my_error(true)),
    };
    let back = Error::Domain(Box::new(x)).unwrap();
    assert_eq!(back.output.message, "message");
    assert_eq!(back.output.exit_code, 3);
    assert_eq!(back.output.context.as_deref(), Some("ctx"));
    assert_eq!(back.source, Some(my_error(true)));
}

#[test]
fn try_recover_without_match_leaves_error_unchanged() {
    let e = ExitErr::Fault(Fault::new_force().with_source(row_not_found()).with_context("c"));
    let r = e.try_recover("MyError", |_| Error::from(ExitError::new("", 0)));
    assert_eq!(r.classify(), ErrorKind::Fault);
    assert_eq!(r.context(), Some("c"));
    let fault = r.unwrap_fault();
    assert_eq!(fault.backtrace_status(), TraceStatus::Captured);
    assert_eq!(fault.source, Some(row_not_found()));

    let none = ExitErr::Domain(Box::new(domain(None))).with_context("d");
    let r = none.try_recover("MyError", |_| Error::from(Fault::new()));
    assert_eq!(r.classify(), ErrorKind::Domain);
    assert_eq!(r.context(), Some("d"));
    assert_eq!(r.extract_cause(), None);
}

#[test]
fn try_recover_with_match_hands_the_cause_to_op() {
    let e = ExitErr::Fault(Fault::new().with_source(my_error(false)).with_context("c"));
    let r = e.try_recover("MyError", |c| {
        assert_eq!(c, my_error(false));
        Error::from(ExitError::new(&c.message, 4))
    });
    assert!(r.is_domain());
    assert_eq!(r.context(), None);
    let d = r.unwrap();
    assert_eq!(d.output.message, "false");
    assert_eq!(d.output.exit_code, 4);
    assert_eq!(d.source, None);
}

#[test]
fn recovery_matches_only_the_cause_held_here() {
    let nested = Cause::new("Wrapper", "Wrapper(MyError(true))", "wrapped")
        .with_source(my_error(true));
    let e = ExitErr::Fault(Fault::new().with_source(nested));
    let r = e.try_recover("MyError", |_| Error::from(ExitError::new("", 0)));
    assert!(r.is_fault());
    assert!(r.downcast_source_ref("Wrapper").is_some());
}

#[test]
fn escalate_with_cause_keeps_the_cause() {
    let x = my_error(true);
    let fault = Err::<(), _>(x).or_fault().unwrap_err();
    assert_eq!(fault.backtrace_status(), TraceStatus::Disabled);
    let err = ExitErr::Fault(fault);
    assert_eq!(err.downcast_source("MyError"), Some(my_error(true)));
}

#[test]
fn lift_or_escalate_accepts_or_escalates() {
    let accept = |e: Cause| {
        if e.is("MyError") {
            Ok(domain(Some(e)))
        } else {
            Err(e)
        }
    };
    let accepted = Err::<(), _>(my_error(true))
        .map_err_or_fault(accept)
        .unwrap_err();
    assert_eq!(accepted.classify(), ErrorKind::Domain);

    let reject = |e: Cause| Err::<DomainError, Cause>(e);
    let rejected = Err::<(), _>(my_error(true))
        .map_err_or_fault(reject)
        .unwrap_err();
    assert_eq!(rejected.classify(), ErrorKind::Fault);
    assert_eq!(rejected.downcast_source("MyError"), Some(my_error(true)));
}

#[test]
fn exit_error_with_context_replaces() {
    let e = ExitError::new("m", 1).with_context("a").with_context("b");
    assert_eq!(e.message, "m");
    assert_eq!(e.exit_code, 1);
    assert_eq!(e.context.as_deref(), Some("b"));
}

#[test]
fn cause_kind_check() {
    let c = my_error(true);
    assert!(c.is("MyError"));
    assert!(!c.is("MyErr"));
    assert!(!c.is("MyError2"));
    assert_eq!(c.debug, "MyError(true)");
    assert_eq!(c.message, "true");
    assert_eq!(explicit_error::errors_chain_debug(&c), "MyError(true)");
}

#[test]
fn source_of_both_cases() {
    assert_eq!(
        ExitErr::Fault(Fault::new().with_source(my_error(true))).source(),
        Some(&my_error(true))
    );
    assert_eq!(
        ExitErr::Domain(Box::new(domain(Some(row_not_found())))).source(),
        Some(&row_not_found())
    );
    assert_eq!(ExitErr::Fault(Fault::new()).source(), None);
    assert_eq!(ExitErr::Domain(Box::new(domain(None))).source(), None);
}

#[test]
fn render_of_both_cases() {
    let dom = Error::from(ExitError::new("Informative feedback", 1));
    assert_eq!(dom.render(), "Informative feedback");
    let fault = ExitErr::Fault(Fault::new().with_context("ctx").with_source(my_error(false)));
    assert_eq!(
        fault.render(),
        "Context: ctx\nSource: MyError(false), false\n"
    );
}
