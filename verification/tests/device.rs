use resource::device::{
    Address, DeviceConfig, DeviceFailure, DeviceManager, DeviceRegistry, DeviceType, Hypervisor,
    HypervisorError, NetworkConfig, NetworkDevice,
};

/// A hypervisor that writes down what it is asked and answers as told.
struct Scripted {
    added: Vec<String>,
    removed: Vec<String>,
    answer: Result<(), HypervisorError>,
}

impl Scripted {
    fn agreeing() -> Self {
        Scripted { added: vec![], removed: vec![], answer: Ok(()) }
    }

    fn failing(error: HypervisorError) -> Self {
        Scripted { added: vec![], removed: vec![], answer: Err(error) }
    }
}

impl Hypervisor for Scripted {
    fn add_device(&mut self, device: &DeviceType) -> Result<(), HypervisorError> {
        let DeviceType::Network(network) = device;
        self.added.push(network.config.host_dev_name.clone());
        self.answer
    }

    fn remove_device(&mut self, device: &DeviceType) -> Result<(), HypervisorError> {
        let DeviceType::Network(network) = device;
        self.removed.push(network.config.host_dev_name.clone());
        self.answer
    }
}

fn config(name: &str, last_octet: u8, queues: usize) -> NetworkConfig {
    NetworkConfig {
        host_dev_name: name.to_string(),
        guest_mac: Some(Address([2, 0, 0xca, 0xfe, 0, last_octet])),
        queue_num: queues,
        queue_size: 256,
    }
}

fn device(name: &str, last_octet: u8, queues: usize) -> DeviceType {
    DeviceType::Network(NetworkDevice { config: config(name, last_octet, queues) })
}

#[test]
fn new_registry_holds_nothing() {
    let registry = DeviceRegistry::new();
    assert!(!registry.contains("eth0"));
    assert_eq!(registry.find_device("eth0"), None);
    assert_eq!(registry.find_device(""), None);
}

#[test]
fn record_added_registers_the_device_when_the_hypervisor_agreed() {
    let mut registry = DeviceRegistry::new();
    assert_eq!(registry.record_added(device("eth0", 1, 2), Ok(())), Ok(()));
    assert!(registry.contains("eth0"));
    assert_eq!(registry.find_device("eth0"), Some(config("eth0", 1, 2)));
    assert!(!registry.contains("eth1"));
}

#[test]
fn record_added_leaves_the_registry_when_the_hypervisor_failed() {
    let mut registry = DeviceRegistry::new();
    assert_eq!(
        registry.record_added(device("eth0", 1, 2), Err(HypervisorError::ResourceExhausted)),
        Err(DeviceFailure::Hypervisor(HypervisorError::ResourceExhausted))
    );
    assert!(!registry.contains("eth0"));
}

#[test]
fn record_added_refuses_a_name_twice_whatever_the_hypervisor_said() {
    let mut registry = DeviceRegistry::new();
    registry.record_added(device("eth0", 1, 2), Ok(())).unwrap();
    assert_eq!(registry.record_added(device("eth0", 9, 4), Ok(())), Err(DeviceFailure::DuplicateDevice));
    assert_eq!(
        registry.record_added(device("eth0", 9, 4), Err(HypervisorError::Rejected)),
        Err(DeviceFailure::DuplicateDevice)
    );
    assert_eq!(registry.find_device("eth0"), Some(config("eth0", 1, 2)));
}

#[test]
fn record_removed_takes_the_device_out_when_the_hypervisor_agreed() {
    let mut registry = DeviceRegistry::new();
    registry.record_added(device("eth0", 1, 2), Ok(())).unwrap();
    registry.record_added(device("eth1", 2, 2), Ok(())).unwrap();
    registry.record_added(device("eth2", 3, 2), Ok(())).unwrap();
    assert_eq!(registry.record_removed(&device("eth1", 2, 2), Ok(())), Ok(()));
    assert!(registry.contains("eth0"));
    assert!(!registry.contains("eth1"));
    assert!(registry.contains("eth2"));
    assert_eq!(registry.find_device("eth2"), Some(config("eth2", 3, 2)));
}

#[test]
fn record_removed_keeps_the_device_when_the_hypervisor_failed() {
    let mut registry = DeviceRegistry::new();
    registry.record_added(device("eth0", 1, 2), Ok(())).unwrap();
    assert_eq!(
        registry.record_removed(&device("eth0", 1, 2), Err(HypervisorError::NotReady)),
        Err(DeviceFailure::Hypervisor(HypervisorError::NotReady))
    );
    assert!(registry.contains("eth0"));
}

#[test]
fn record_removed_refuses_a_name_that_is_not_plugged() {
    let mut registry = DeviceRegistry::new();
    assert_eq!(registry.record_removed(&device("eth0", 1, 2), Ok(())), Err(DeviceFailure::DeviceNotFound));
    registry.record_added(device("eth0", 1, 2), Ok(())).unwrap();
    assert_eq!(
        registry.record_removed(&device("eth1", 1, 2), Err(HypervisorError::Rejected)),
        Err(DeviceFailure::DeviceNotFound)
    );
    assert!(registry.contains("eth0"));
}

#[test]
fn a_removed_name_can_be_added_again() {
    let mut registry = DeviceRegistry::new();
    registry.record_added(device("eth0", 1, 2), Ok(())).unwrap();
    registry.record_removed(&device("eth0", 1, 2), Ok(())).unwrap();
    assert_eq!(registry.record_added(device("eth0", 7, 8), Ok(())), Ok(()));
    assert_eq!(registry.find_device("eth0"), Some(config("eth0", 7, 8)));
}

#[test]
fn handle_device_asks_the_hypervisor_and_registers() {
    let mut manager = DeviceManager::new(Scripted::agreeing());
    assert_eq!(manager.handle_device(DeviceConfig::NetworkCfg(config("eth0", 1, 2))), Ok(()));
    assert_eq!(manager.hypervisor().added, vec!["eth0".to_string()]);
    assert_eq!(manager.find_device("eth0"), Some(config("eth0", 1, 2)));
}

#[test]
fn handle_device_refuses_a_duplicate_without_asking_the_hypervisor() {
    let mut manager = DeviceManager::new(Scripted::agreeing());
    manager.handle_device(DeviceConfig::NetworkCfg(config("eth0", 1, 2))).unwrap();
    assert_eq!(
        manager.handle_device(DeviceConfig::NetworkCfg(config("eth0", 5, 1))),
        Err(DeviceFailure::DuplicateDevice)
    );
    assert_eq!(manager.hypervisor().added.len(), 1);
    assert_eq!(manager.find_device("eth0"), Some(config("eth0", 1, 2)));
}

#[test]
fn handle_device_reports_what_the_hypervisor_failed_with() {
    for error in [
        HypervisorError::NotReady,
        HypervisorError::ResourceExhausted,
        HypervisorError::Rejected,
    ] {
        let mut manager = DeviceManager::new(Scripted::failing(error));
        assert_eq!(
            manager.handle_device(DeviceConfig::NetworkCfg(config("eth0", 1, 2))),
            Err(DeviceFailure::Hypervisor(error))
        );
        assert_eq!(manager.find_device("eth0"), None);
        assert_eq!(manager.hypervisor().added.len(), 1);
    }
}

#[test]
fn remove_device_asks_the_hypervisor_and_forgets() {
    let mut manager = DeviceManager::new(Scripted::agreeing());
    manager.handle_device(DeviceConfig::NetworkCfg(config("eth0", 1, 2))).unwrap();
    assert_eq!(manager.remove_device(device("eth0", 1, 2)), Ok(()));
    assert_eq!(manager.hypervisor().removed, vec!["eth0".to_string()]);
    assert_eq!(manager.find_device("eth0"), None);
}

#[test]
fn remove_device_refuses_an_unknown_name_without_asking_the_hypervisor() {
    let mut manager = DeviceManager::new(Scripted::agreeing());
    assert_eq!(manager.remove_device(device("eth0", 1, 2)), Err(DeviceFailure::DeviceNotFound));
    assert!(manager.hypervisor().removed.is_empty());
}

#[test]
fn network_config_clone_is_equal() {
    let original = config("eth0", 1, 2);
    assert_eq!(original.clone(), original);
}
