use gpio_host::options::{ComponentSource, HostImpl, OptionError};

#[test]
fn host_impl_reads_linux_and_sim() {
    assert_eq!(HostImpl::from_str("linux"), Ok(HostImpl::Linux));
    assert_eq!(HostImpl::from_str("sim"), Ok(HostImpl::Sim));
}

#[test]
fn host_impl_refuses_other_words() {
    for s in ["", "Linux", "simulation", "linux ", "rust", "l"] {
        assert_eq!(HostImpl::from_str(s), Err(OptionError::InvalidHostImpl));
    }
}

#[test]
fn source_reads_rust_and_javascript() {
    assert_eq!(ComponentSource::from_str("rust"), Ok(ComponentSource::Rs));
    assert_eq!(ComponentSource::from_str("javascript"), Ok(ComponentSource::Js));
}

#[test]
fn source_refuses_other_words() {
    for s in ["", "js", "Rust", "rs", "linux", "javascript!"] {
        assert_eq!(ComponentSource::from_str(s), Err(OptionError::InvalidGuestLanguage));
    }
}

#[test]
fn source_names() {
    assert_eq!(ComponentSource::Rs.as_str(), "rust");
    assert_eq!(ComponentSource::Js.as_str(), "javascript");
    assert_eq!(ComponentSource::Rs.to_string(), "rust");
    assert_eq!(ComponentSource::Js.to_string(), "javascript");
}

#[test]
fn source_name_reads_back() {
    for source in [ComponentSource::Rs, ComponentSource::Js] {
        assert_eq!(ComponentSource::from_str(&source.to_string()), Ok(source));
    }
}

#[test]
fn option_error_messages() {
    assert_eq!(OptionError::InvalidHostImpl.message(), "invalid host implementation");
    assert_eq!(OptionError::InvalidGuestLanguage.message(), "invalid guest language");
}

#[test]
fn command_line_defaults_parse() {
    assert_eq!(HostImpl::from_str("linux"), Ok(HostImpl::Linux));
    assert_eq!(ComponentSource::from_str("rust"), Ok(ComponentSource::Rs));
}
