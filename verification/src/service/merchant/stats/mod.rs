pub mod totalamount;
