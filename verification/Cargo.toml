[package]
name = "tank_core"
version = "0.1.0"
edition = "2021"
publish = false

[dependencies]
i2cdev = "=0.3.2"
i2cdev_bno055 = "=0.1.3"
i2csensors = "=0.1.3"
sysfs_gpio = "=0.6.2"
termion = "=4.0.6"
serde = "=1.0.229"
serde_derive = "=1.0.229"
serde_json = "=1.0.151"
