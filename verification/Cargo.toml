[package]
name = "esp_wifi_manager"
version = "0.1.0"
edition = "2021"
publish = false

[dependencies]
embassy-executor = "=0.10.0"
embassy-futures = "=0.1.2"
embassy-net = { version = "=0.9.1", features = ["tcp", "udp", "dhcpv4", "dns", "medium-ethernet", "proto-ipv4"] }
embassy-sync = "=0.8.0"
embassy-time = "=0.5.1"
embedded-io-async = "=0.7.0"
esp-bootloader-esp-idf = "*"
esp-hal = "*"
esp-hal-dhcp-server = "=0.4.3"
esp-nvs = "=0.6.3"
esp-println = "*"
esp-radio = "=0.17.0"
esp-storage = "*"
heapless = "=0.9.3"
log = "=0.4.34"
rand_core = "=0.10.1"
serde = { version = "=1.0.229", features = ["derive"] }
serde_json = "=1.0.154"
static_cell = "=2.1.1"
tickv = "=2.0.0"
trouble-host = "=0.8.0"
