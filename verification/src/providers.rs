pub mod speedtest_net;
