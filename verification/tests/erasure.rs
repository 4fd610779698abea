use ecap::common::fields::FieldList;
use ecap::common::log::LogVerbosity;
use ecap::erased::ErasedService;
use ecap::host::host::{Host, HostTag};
use ecap::host::local::{LocalDebugStream, LocalHost, LocalMessage, LocalTransaction};
use ecap::samples::minimal::MinimalService;
use ecap::samples::passthru::PassthruService;
use ecap::Text;

/// A host of another family, with the types of the local host.
struct OtherHost(LocalHost);

impl Host for OtherHost {
    type DebugStream = LocalDebugStream;
    type Message = LocalMessage;
    type Transaction = LocalTransaction;
    type Options = FieldList;

    fn spec_tag() -> HostTag {
        unreachable!()
    }

    fn spec_uri(&self) -> Text {
        unreachable!()
    }

    fn spec_describe(&self) -> Text {
        unreachable!()
    }

    fn tag() -> HostTag {
        HostTag(2)
    }

    fn uri(&self) -> String {
        String::from("ecap://rust/host/other")
    }

    fn describe(&self) -> String {
        String::from("Another host")
    }

    fn open_debug(&mut self, verbosity: LogVerbosity) -> Option<LocalDebugStream> {
        self.0.open_debug(verbosity)
    }

    fn close_debug(&mut self, stream: LocalDebugStream) {
        self.0.close_debug(stream)
    }

    fn new_request(&self) -> LocalMessage {
        self.0.new_request()
    }

    fn new_response(&self) -> LocalMessage {
        self.0.new_response()
    }
}

#[test]
fn a_service_is_not_taken_for_another_host() {
    let erased = ErasedService::<LocalHost>::new::<LocalHost, MinimalService>(MinimalService);
    assert!(!erased.is_for::<OtherHost>());
    let back = match erased.try_take::<OtherHost>() {
        Ok(_) => panic!("taken for another host"),
        Err(back) => back,
    };
    // The service is still there for its own host.
    assert_eq!(back.host_tag(), HostTag(1));
    assert!(back.try_take::<LocalHost>().is_ok());
}

#[test]
fn a_service_erased_for_another_host_keeps_that_tag() {
    let erased = ErasedService::<LocalHost>::new::<OtherHost, PassthruService>(PassthruService);
    assert_eq!(erased.host_tag(), HostTag(2));
    assert!(erased.is_for::<OtherHost>());
    assert!(!erased.is_for::<LocalHost>());
    assert!(erased.try_take::<LocalHost>().is_err());
}
