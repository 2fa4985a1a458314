[package]
name = "deployer"
version = "0.1.0"
edition = "2021"
publish = false

[dependencies]
base64 = "*"
uuid = { version = "*", features = ["v4"] }
rocket = { version = "*", features = ["json"] }
rocket_okapi = { version = "*", features = ["swagger", "rapidoc"] }
rusoto_core = { version = "*", default-features = false, features = ["rustls"] }
rusoto_ec2 = { version = "*", default-features = false, features = ["rustls"] }
rusoto_autoscaling = { version = "*", default-features = false, features = ["rustls"] }
rusoto_elbv2 = { version = "*", default-features = false, features = ["rustls"] }
rusoto_route53 = { version = "*", default-features = false, features = ["rustls"] }
tokio = { version = "*", features = ["full"] }
dotenv = "*"
